use vstd::prelude::*;

verus! {

/// The colour scheme of a button.
#[derive(Clone, Copy, Debug, PartialEq, Eq, Structural)]
pub enum Color {
    White,
    Confirm,
    Error,
}

/// The background colour of a button of colour `c`.
pub open spec fn primary_of(c: Color) -> Seq<char> {
    match c {
        Color::White => "#fbfbfc"@,
        Color::Confirm => "#4db0ff"@,
        Color::Error => "#ff6b6b"@,
    }
}

/// The background colour of a hovered button of colour `c`.
pub open spec fn secondary_of(c: Color) -> Seq<char> {
    match c {
        Color::White => "#c8c8c9"@,
        Color::Confirm => "#3d8ccc"@,
        Color::Error => "#cc5555"@,
    }
}

/// The background colour of a disabled button of colour `c`.
pub open spec fn disabled_of(c: Color) -> Seq<char> {
    match c {
        Color::White => "#aeaeaf"@,
        Color::Confirm => "#357bb2"@,
        Color::Error => "#b24a4a"@,
    }
}

/// The text colour of a button: black on every scheme.
pub open spec fn foreground_of(c: Color) -> Seq<char> {
    "#000"@
}

impl Color {
    pub fn get_primary_color(&self) -> (r: String)
        ensures
            r@ == primary_of(*self),
    {
        match self {
            Color::White => String::from_str("#fbfbfc"),
            Color::Confirm => String::from_str("#4db0ff"),
            Color::Error => String::from_str("#ff6b6b"),
        }
    }

    pub fn get_secondary_color(&self) -> (r: String)
        ensures
            r@ == secondary_of(*self),
    {
        match self {
            Color::White => String::from_str("#c8c8c9"),
            Color::Confirm => String::from_str("#3d8ccc"),
            Color::Error => String::from_str("#cc5555"),
        }
    }

    pub fn get_disabled_color(&self) -> (r: String)
        ensures
            r@ == disabled_of(*self),
    {
        match self {
            Color::White => String::from_str("#aeaeaf"),
            Color::Confirm => String::from_str("#357bb2"),
            Color::Error => String::from_str("#b24a4a"),
        }
    }

    pub fn get_foreground_color(&self) -> (r: String)
        ensures
            r@ == foreground_of(*self),
    {
        String::from_str("#000")
    }
}

} // verus!

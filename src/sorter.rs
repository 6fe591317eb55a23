use vstd::prelude::*;

verus! {

broadcast use vstd::seq_lib::group_to_multiset_ensures;

/// A user request to reorder or shrink the displayed image sequence, by
/// zero-based position.
#[derive(Clone, Copy, Debug, PartialEq, Eq, Structural)]
pub enum OrderChangedMessage {
    MoveLeft(usize),
    MoveRight(usize),
    Remove(usize),
}

/// Whether `msg` names a valid position of a sequence of length `len`:
/// moving left needs a predecessor, moving right a successor, removing an
/// element.
pub open spec fn order_change_applies(len: nat, msg: OrderChangedMessage) -> bool {
    match msg {
        OrderChangedMessage::MoveLeft(i) => 0 < i < len,
        OrderChangedMessage::MoveRight(i) => i + 1 < len,
        OrderChangedMessage::Remove(i) => i < len,
    }
}

/// `s` with the elements at `i` and `i + 1` exchanged.
pub open spec fn swap_adjacent<T>(s: Seq<T>, i: int) -> Seq<T> {
    s.update(i, s[i + 1]).update(i + 1, s[i])
}

/// The sequence after `msg`; a message on an invalid position changes nothing.
pub open spec fn reordered<T>(s: Seq<T>, msg: OrderChangedMessage) -> Seq<T> {
    if !order_change_applies(s.len(), msg) {
        s
    } else {
        match msg {
            OrderChangedMessage::MoveLeft(i) => swap_adjacent(s, i - 1),
            OrderChangedMessage::MoveRight(i) => swap_adjacent(s, i as int),
            OrderChangedMessage::Remove(i) => s.remove(i as int),
        }
    }
}

/// The sequence after applying `msgs` one after the other, in order.
pub open spec fn reordered_all<T>(s: Seq<T>, msgs: Seq<OrderChangedMessage>) -> Seq<T>
    decreases msgs.len(),
{
    if msgs.len() == 0 {
        s
    } else {
        reordered(reordered_all(s, msgs.drop_last()), msgs.last())
    }
}

proof fn lemma_swap_is_remove_insert<T>(s: Seq<T>, i: int)
    requires
        0 <= i,
        i + 1 < s.len(),
    ensures
        s.remove(i + 1).insert(i, s[i + 1]) == swap_adjacent(s, i),
{
    assert(s.remove(i + 1).insert(i, s[i + 1]) =~= swap_adjacent(s, i));
}

/// Exchanges the elements at `i` and `i + 1` by moving the later one in
/// front of the earlier one.
fn swap_with_next<T>(items: &mut Vec<T>, i: usize)
    requires
        i + 1 < old(items)@.len(),
    ensures
        final(items)@ == swap_adjacent(old(items)@, i as int),
{
    let len = items.len();
    assert(i + 1 < len);
    let moved = items.remove(i + 1);
    items.insert(i, moved);
    proof {
        lemma_swap_is_remove_insert(old(items)@, i as int);
    }
}

/// Applies one reordering request to `items`.  A request whose position is
/// not valid against the current length is ignored and reported by `false`.
pub fn apply_order_change<T>(items: &mut Vec<T>, msg: OrderChangedMessage) -> (applied: bool)
    ensures
        applied == order_change_applies(old(items)@.len(), msg),
        final(items)@ == reordered(old(items)@, msg),
{
    let len = items.len();
    match msg {
        OrderChangedMessage::MoveLeft(i) => {
            if 0 < i && i < len {
                swap_with_next(items, i - 1);
                true
            } else {
                false
            }
        },
        OrderChangedMessage::MoveRight(i) => {
            if i < len && i + 1 < len {
                swap_with_next(items, i);
                true
            } else {
                false
            }
        },
        OrderChangedMessage::Remove(i) => {
            if i < len {
                items.remove(i);
                true
            } else {
                false
            }
        },
    }
}

/// Moving an image left or right keeps the same images, the same number of
/// times each: the result is a permutation of the sequence before.
pub proof fn lemma_move_is_permutation<T>(s: Seq<T>, msg: OrderChangedMessage)
    requires
        !(msg is Remove),
    ensures
        reordered(s, msg).len() == s.len(),
        reordered(s, msg).to_multiset() == s.to_multiset(),
{
    if order_change_applies(s.len(), msg) {
        let i: int = match msg {
            OrderChangedMessage::MoveLeft(k) => k - 1,
            _ => msg->MoveRight_0 as int,
        };
        lemma_swap_is_remove_insert(s, i);
        let r = s.remove(i + 1);
        assert(r.insert(i, s[i + 1]).to_multiset() == r.to_multiset().insert(s[i + 1]));
        assert(r.to_multiset() == s.to_multiset().remove(s[i + 1]));
        assert(s.to_multiset().count(s[i + 1]) > 0);
        assert(s.to_multiset().remove(s[i + 1]).insert(s[i + 1]) =~= s.to_multiset());
    }
}

/// Removing the image at a valid position leaves the others in their order,
/// one fewer than before.
pub proof fn lemma_remove_is_subsequence<T>(s: Seq<T>, i: usize)
    requires
        i < s.len(),
    ensures
        reordered(s, OrderChangedMessage::Remove(i)) == s.subrange(0, i as int) + s.subrange(
            i + 1,
            s.len() as int,
        ),
        reordered(s, OrderChangedMessage::Remove(i)).len() == s.len() - 1,
{
    assert(s.remove(i as int) =~= s.subrange(0, i as int) + s.subrange(i + 1, s.len() as int));
}

/// Over any run of reordering requests the number of images never grows and
/// no image appears that was not there before; with no removal in the run
/// the result is a permutation of the start.
pub proof fn lemma_changes_never_add<T>(s: Seq<T>, msgs: Seq<OrderChangedMessage>)
    ensures
        reordered_all(s, msgs).len() <= s.len(),
        reordered_all(s, msgs).to_multiset().subset_of(s.to_multiset()),
        (forall|k: int| 0 <= k < msgs.len() ==> !(#[trigger] msgs[k] is Remove)) ==> (
        reordered_all(s, msgs).to_multiset() == s.to_multiset()),
    decreases msgs.len(),
{
    if msgs.len() > 0 {
        let prev = reordered_all(s, msgs.drop_last());
        lemma_changes_never_add(s, msgs.drop_last());
        let msg = msgs.last();
        if msg is Remove {
            if order_change_applies(prev.len(), msg) {
                let i = msg->Remove_0 as int;
                assert(prev.remove(i).to_multiset() == prev.to_multiset().remove(prev[i]));
                assert(prev.to_multiset().remove(prev[i]).subset_of(prev.to_multiset()));
            }
        } else {
            lemma_move_is_permutation(prev, msg);
        }
        assert(forall|k: int| 0 <= k < msgs.drop_last().len() ==> msgs.drop_last()[k] == msgs[k]);
    }
}

} // verus!

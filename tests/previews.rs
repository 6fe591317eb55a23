use receipt_merger::button::Color;
use receipt_merger::image::Image;
use receipt_merger::preview::{control_states, data_uri_of, encode_image, Msg, SortingEffect, SortingImage};
use receipt_merger::respond::{png_body, ReceiptCreatedResponse};
use receipt_merger::route::{not_found, receipts, Endpoint, RouteConfig};
use receipt_merger::selector::{on_change, ImageSelector, Msg as SelectorMsg, SelectedFile, SelectorEffect};
use receipt_merger::error::ApiError;
use receipt_merger::sorter::OrderChangedMessage;
use receipt_merger::text::push_decimal;

#[test]
fn data_uri_wraps_encoded_text() {
    assert_eq!(data_uri_of("image/png", "AAAA"), "data:image/png;base64,AAAA");
}

#[test]
fn preview_is_base64_data_uri() {
    let image = Image::new("x.png".to_string(), "image/png".to_string(), 5, b"hello".to_vec());
    assert_eq!(encode_image(&image), "data:image/png;base64,aGVsbG8=");
    let empty = Image::new("e".to_string(), "image/png".to_string(), 0, Vec::new());
    assert_eq!(encode_image(&empty), "data:image/png;base64,");
}

#[test]
fn sorting_image_lifecycle() {
    let mut e = SortingImage::create();
    assert!(e.rendered());
    assert!(matches!(e.update(Msg::Encoding), SortingEffect::StartEncoding));
    assert!(!e.rendered());
    assert!(matches!(e.update(Msg::Encoded("data:x".to_string())), SortingEffect::Nothing));
    assert_eq!(e.encoded_image, "data:x");
    assert!(!e.rendered());
    assert!(matches!(
        e.update(Msg::OrderChanged(OrderChangedMessage::Remove(4))),
        SortingEffect::Forward(OrderChangedMessage::Remove(4))
    ));
}

#[test]
fn preview_recomputed_only_on_new_bytes() {
    assert!(!SortingImage::changed(&vec![1, 2], &vec![1, 2]));
    assert!(SortingImage::changed(&vec![1, 2], &vec![1, 3]));
    assert!(SortingImage::changed(&vec![1], &vec![1, 2]));
    assert!(!SortingImage::changed(&vec![], &vec![]));
}

#[test]
fn edge_buttons_are_disabled() {
    let first = control_states(0, 3, false);
    assert!(first.left_disabled && !first.remove_disabled && !first.right_disabled);
    let last = control_states(2, 3, false);
    assert!(!last.left_disabled && last.right_disabled);
    let only = control_states(0, 1, false);
    assert!(only.left_disabled && only.right_disabled);
    let busy = control_states(1, 3, true);
    assert!(busy.left_disabled && busy.remove_disabled && busy.right_disabled);
    let none = control_states(0, 0, false);
    assert!(none.right_disabled);
}

fn file(name: &str, t: &str) -> SelectedFile {
    SelectedFile { name: name.to_string(), mime_type: t.to_string(), size: 1 }
}

#[test]
fn selection_keeps_png_files_in_order() {
    let r = on_change(vec![file("a", "image/png"), file("b", "image/jpeg"), file("c", "image/png")]);
    let names: Vec<&str> = r.accepted.iter().map(|f| f.name.as_str()).collect();
    assert_eq!(names, vec!["a", "c"]);
    assert!(r.any_rejected);
}

#[test]
fn selection_of_only_png_has_no_warning() {
    let r = on_change(vec![file("a", "image/png")]);
    assert_eq!(r.accepted.len(), 1);
    assert!(!r.any_rejected);
    let r = on_change(Vec::new());
    assert!(r.accepted.is_empty() && !r.any_rejected);
    let r = on_change(vec![file("a", "IMAGE/PNG")]);
    assert!(r.accepted.is_empty() && r.any_rejected);
}

#[test]
fn selector_resets_input_after_dispatch() {
    let mut s = ImageSelector::create();
    s.files_value = "C:\\fakepath\\a.png".to_string();
    assert!(matches!(s.update(SelectorMsg::ImagesSelected(2)), SelectorEffect::StartReads { count: 2 }));
    assert_eq!(s.files_value, "");
    assert!(matches!(s.update(SelectorMsg::FileLoadError), SelectorEffect::ReportLoadFailure));
    let img = Image::new("a".to_string(), "image/png".to_string(), 1, vec![1]);
    assert!(matches!(s.update(SelectorMsg::FileReady(img)), SelectorEffect::Deliver(i) if i.name == "a"));
}

#[test]
fn receipts_scope_is_mounted() {
    let mut cfg = RouteConfig::new();
    receipts(&mut cfg);
    assert_eq!(cfg.mounts.len(), 1);
    assert_eq!(cfg.mounts[0].prefix, "/receipts");
    assert_eq!(cfg.mounts[0].endpoint, Endpoint::CreateReceipt);
}

#[test]
fn unmatched_path_is_endpoint_not_found() {
    let e = not_found("/nowhere".to_string());
    assert_eq!(e.status_code(), 404);
    assert!(matches!(e, ApiError::EndpointNotFound { path } if path == "/nowhere"));
}

#[test]
fn button_colors() {
    assert_eq!(Color::White.get_primary_color(), "#fbfbfc");
    assert_eq!(Color::Confirm.get_secondary_color(), "#3d8ccc");
    assert_eq!(Color::Error.get_disabled_color(), "#b24a4a");
    assert_eq!(Color::Error.get_foreground_color(), "#000");
}

#[test]
fn decimal_text() {
    for (n, t) in [(0u64, "0"), (7, "7"), (10, "10"), (12345, "12345"), (u64::MAX, "18446744073709551615")] {
        let mut s = "n=".to_string();
        push_decimal(&mut s, n);
        assert_eq!(s, format!("n={}", t));
    }
}

#[test]
fn merged_image_is_encoded_as_png() {
    let image = image::DynamicImage::new_rgb8(2, 2);
    let body = ReceiptCreatedResponse { image }.respond_to().ok().unwrap();
    assert_eq!(&body[..8], &[0x89, b'P', b'N', b'G', 0x0D, 0x0A, 0x1A, 0x0A]);
}

#[test]
fn failed_encoding_is_generate_error() {
    let e = png_body(None).err().unwrap();
    assert_eq!(e.status_code(), 400);
    assert!(matches!(e, ApiError::ImageGenerateError { message } if message == "Failed to generate image"));
    assert_eq!(png_body(Some(vec![1, 2])).ok().unwrap(), vec![1, 2]);
}

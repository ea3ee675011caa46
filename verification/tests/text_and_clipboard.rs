use icy_ui::clipboard::{mime_type_listed, Clipboard, ClipboardData, Format, Kind, Null, Platform};
use icy_ui::text::{bytes_eq, chars_of, str_eq};
use std::borrow::Cow;

#[test]
fn string_helpers() {
    assert!(str_eq("héllo", "héllo"));
    assert!(!str_eq("a", "b"));
    assert!(!str_eq("a", "ab"));
    assert!(bytes_eq(&[1, 2], &[1, 2]));
    assert!(!bytes_eq(&[1, 2], &[1, 3]));
    assert_eq!(chars_of("añb"), vec!['a', 'ñ', 'b']);
}

#[test]
fn format_tables() {
    assert_eq!(Format::Text.formats(Platform::Unix), &["text/plain;charset=utf-8", "text/plain", "UTF8_STRING", "STRING"]);
    assert_eq!(Format::Text.formats(Platform::MacOs), &["public.utf8-plain-text", "public.plain-text"]);
    assert_eq!(Format::Image.formats(Platform::Windows), &["PNG", "CF_DIBV5"]);
    assert_eq!(Format::Files.formats(Platform::Other), &["text/uri-list"]);
    for platform in [Platform::MacOs, Platform::Windows, Platform::Unix, Platform::Other] {
        for format in [Format::Text, Format::Rtf, Format::Html, Format::Png, Format::Jpeg, Format::Image, Format::Files] {
            assert_eq!(format.primary(platform), format.formats(platform)[0]);
        }
    }
    assert_eq!(Format::Jpeg.primary(Platform::Windows), "JFIF");
}

#[test]
fn clipboard_data_as_text() {
    let data = ClipboardData::new("text/plain".to_string(), "héllo".as_bytes().to_vec());
    assert_eq!(data.as_text(), Some("héllo"));
    assert_eq!(data.into_text(), Some("héllo".to_string()));
    let bad = ClipboardData::new("x".to_string(), vec![0xff, 0xfe]);
    assert_eq!(bad.as_text(), None);
    assert_eq!(bad.into_text(), None);
}

#[test]
fn null_clipboard_holds_nothing() {
    let mut null = Null;
    null.write_text(Kind::Standard, "x".to_string());
    assert_eq!(null.read_text(Kind::Standard), None);
    assert!(null.read(Kind::Primary, &["text/plain"]).is_none());
    assert!(null.available_mime_types(Kind::Standard).is_empty());
    assert!(!null.has_mime_type(Kind::Standard, "text/plain"));
    assert!(null.read_image(Kind::Standard, Platform::Unix).is_none());
    assert!(null.read_html(Kind::Standard, Platform::Unix).is_none());
    null.write_html(Kind::Standard, "<b>x</b>", Some("x"), Platform::Unix);
    null.write_image(Kind::Standard, Cow::Borrowed(&[1u8][..]), Platform::Unix);
    assert!(null.read_files(Kind::Standard).is_none());
    null.write_files(Kind::Standard, &["/a".to_string()]);
    null.clear(Kind::Standard);
}

struct Fixed(Vec<String>);

impl Clipboard for Fixed {
    fn read_text(&self, _kind: Kind) -> Option<String> { None }
    fn write_text(&mut self, _kind: Kind, _contents: String) {}
    fn read(&self, _kind: Kind, mime_types: &[&str]) -> Option<ClipboardData> {
        Some(ClipboardData::new(mime_types[0].to_string(), b"<i>hi</i>".to_vec()))
    }
    fn write(&mut self, _kind: Kind, _data: Cow<'_, [u8]>, mime_types: &[&str]) {
        self.0 = mime_types.iter().map(|s| s.to_string()).collect();
    }
    fn write_multi(&mut self, _kind: Kind, formats: &[(Cow<'_, [u8]>, &[&str])]) {
        self.0 = formats.iter().flat_map(|(_, m)| m.iter().map(|s| s.to_string())).collect();
    }
    fn available_mime_types(&self, _kind: Kind) -> Vec<String> { vec!["a/b".to_string(), "text/html".to_string()] }
    fn read_files(&self, _kind: Kind) -> Option<Vec<String>> { None }
    fn write_files(&mut self, _kind: Kind, _paths: &[String]) {}
    fn clear(&mut self, _kind: Kind) {}
}

#[test]
fn provided_clipboard_methods_use_the_platform_formats() {
    let mut c = Fixed(vec![]);
    assert!(c.has_mime_type(Kind::Standard, "text/html"));
    assert!(!c.has_mime_type(Kind::Standard, "image/png"));
    assert_eq!(c.read_html(Kind::Standard, Platform::Unix), Some("<i>hi</i>".to_string()));
    assert_eq!(c.read_image(Kind::Standard, Platform::MacOs).map(|d| d.mime_type), Some("public.png".to_string()));
    c.write_image(Kind::Standard, Cow::Borrowed(&[0u8][..]), Platform::Windows);
    assert_eq!(c.0, vec!["PNG"]);
    c.write_html(Kind::Standard, "<p/>", None, Platform::Unix);
    assert_eq!(c.0, vec!["text/html"]);
    c.write_html(Kind::Standard, "<p/>", Some("p"), Platform::Other);
    assert_eq!(c.0, vec!["text/html", "text/plain"]);
}

#[test]
fn mime_types_are_matched_exactly() {
    let types = vec![String::from("text/plain"), String::from("text/html")];
    assert!(mime_type_listed(&types, "text/html"));
    assert!(!mime_type_listed(&types, "text/htm"));
    assert!(!mime_type_listed(&[], "text/plain"));
    assert!(!Null.has_mime_type(Kind::Standard, "text/plain"));
}

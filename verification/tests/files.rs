use web_utils::err::Error;
use web_utils::file::{compose_filename, ChunkAction, File, FileSaver, PREFIX_LEN};
use web_utils::stamp::Timestamp;

fn is_stamp(s: &str) -> bool {
    let b = s.as_bytes();
    let shape = b"dddd-dd-dd--dd-dd-dd";
    b.len() == shape.len()
        && b.iter().zip(shape.iter()).all(|(c, k)| if *k == b'd' {
            c.is_ascii_digit()
        } else {
            c == k
        })
}

fn assert_generated(name: &str, ext: &str) {
    assert_eq!(name.len(), PREFIX_LEN + 1 + 20 + 1 + ext.len());
    assert!(name[..PREFIX_LEN].chars().all(|c| c.is_ascii_alphanumeric()));
    assert_eq!(&name[PREFIX_LEN..PREFIX_LEN + 1], "-");
    assert!(is_stamp(&name[PREFIX_LEN + 1..PREFIX_LEN + 21]));
    assert_eq!(&name[PREFIX_LEN + 21..], format!(".{}", ext));
}

#[test]
fn extension_is_what_follows_the_last_dot() {
    assert_eq!(FileSaver::get_ext("photo.gif"), Some("gif"));
    assert_eq!(FileSaver::get_ext("resume.pdf"), Some("pdf"));
    assert_eq!(FileSaver::get_ext("archive.tar.gz"), Some("gz"));
    assert_eq!(FileSaver::get_ext(".hidden"), Some("hidden"));
    assert_eq!(FileSaver::get_ext("a.b"), Some("b"));
}

#[test]
fn name_without_dot_has_no_extension() {
    assert_eq!(FileSaver::get_ext("README"), None);
    assert_eq!(FileSaver::get_ext(""), None);
    assert_eq!(FileSaver::get_ext("no extension here"), None);
}

#[test]
fn name_that_ends_in_dot_has_the_empty_extension() {
    assert_eq!(FileSaver::get_ext("file."), Some(""));
    assert_eq!(FileSaver::get_ext("."), Some(""));
    assert_eq!(FileSaver::get_ext("a..").map(|e| e.len()), Some(0));
}

#[test]
fn extension_of_a_name_with_wide_characters() {
    assert_eq!(FileSaver::get_ext("r\u{e9}sum\u{e9}.pdf"), Some("pdf"));
    assert_eq!(FileSaver::get_ext("photo.\u{e9}t\u{e9}"), Some("\u{e9}t\u{e9}"));
    assert_eq!(FileSaver::get_ext("\u{65e5}\u{672c}"), None);
}

#[test]
fn composed_name_for_a_given_time() {
    let t = Timestamp::new(2024, 1, 15, 10, 30, 0).unwrap();
    assert_eq!(
        compose_filename("aB3dE6gH9j", &t, "pdf"),
        "aB3dE6gH9j-2024-01-15--10-30-00.pdf"
    );
    assert_eq!(compose_filename("", &t, ""), "-2024-01-15--10-30-00.");
}

#[test]
fn composed_name_gives_its_extension_back() {
    let t = Timestamp::new(1999, 12, 31, 23, 59, 59).unwrap();
    let name = compose_filename("0123456789", &t, "png");
    assert_eq!(name, "0123456789-1999-12-31--23-59-59.png");
    assert_eq!(FileSaver::get_ext(&name), Some("png"));
}

#[test]
fn different_prefixes_give_different_names() {
    let t = Timestamp::new(2024, 1, 15, 10, 30, 0).unwrap();
    let a = compose_filename("aaaaaaaaaa", &t, "pdf");
    let b = compose_filename("aaaaaaaaab", &t, "pdf");
    assert_ne!(a, b);
}

#[test]
fn generated_name_has_prefix_time_and_extension() {
    let name = FileSaver::generate_filename("pdf");
    assert_generated(&name, "pdf");
    assert_ne!(name, "pdf");
    let year: u32 = name[PREFIX_LEN + 1..PREFIX_LEN + 5].parse().unwrap();
    assert!(year >= 2024);
    let month: u32 = name[PREFIX_LEN + 6..PREFIX_LEN + 8].parse().unwrap();
    assert!((1..=12).contains(&month));
    let bare = FileSaver::generate_filename("");
    assert_generated(&bare, "");
}

#[test]
fn generated_names_of_one_second_differ() {
    let a = FileSaver::generate_filename("png");
    let b = FileSaver::generate_filename("png");
    assert_ne!(a, b);
    assert_ne!(a[..PREFIX_LEN], b[..PREFIX_LEN]);
}

#[test]
fn extension_outside_the_list_is_invalid() {
    let saver = FileSaver::new("/uploads", Some(vec!["png", "jpg"]), 1024);
    assert_eq!(saver.get_ext_checked("photo.gif"), Err(Error::InvalidFile));
    assert_eq!(saver.get_ext_checked("photo.png"), Ok("png"));
    assert_eq!(saver.get_ext_checked("photo.jpg"), Ok("jpg"));
    assert_eq!(saver.get_ext_checked("photo.PNG"), Err(Error::InvalidFile));
    assert_eq!(saver.get_ext_checked("photo"), Err(Error::InvalidFile));
    assert_eq!(saver.get_ext_checked("photo."), Err(Error::InvalidFile));
    assert!(saver.allows("png"));
    assert!(!saver.allows("gif"));
    assert!(matches!(saver.clone().save_field(Some("photo.gif")), Err(Error::InvalidFile)));
    assert!(matches!(saver.save_bytes(b"GIF89a", "photo.gif"), Err(Error::InvalidFile)));
    assert!(matches!(saver.copy("photo.gif"), Err(Error::InvalidFile)));
}

#[test]
fn without_a_list_every_extension_passes() {
    let saver = FileSaver::default();
    assert_eq!(saver.get_ext_checked("a.anything"), Ok("anything"));
    assert_eq!(saver.get_ext_checked("a."), Ok(""));
    assert_eq!(saver.get_ext_checked("a"), Err(Error::InvalidFile));
    assert!(saver.allows("gif"));
    let cleared = FileSaver::new("d", Some(vec!["png"]), 1).allowed_fmts(None);
    assert!(cleared.allows("gif"));
    let empty = FileSaver::default().allowed_fmts(Some(Vec::new()));
    assert!(!empty.allows("gif"));
    assert_eq!(empty.get_ext_checked("a.gif"), Err(Error::InvalidFile));
}

#[test]
fn name_without_dot_is_invalid_everywhere() {
    let saver = File::saver().dir("/srv");
    assert!(matches!(saver.save_bytes(b"abc", "README"), Err(Error::InvalidFile)));
    assert!(matches!(saver.save_bytes_checked(b"abc", "README"), Err(Error::InvalidFile)));
    assert!(matches!(saver.copy("README"), Err(Error::InvalidFile)));
    assert!(matches!(saver.save_field(Some("README")), Err(Error::InvalidFile)));
}

#[test]
fn stream_without_a_declared_name_is_invalid() {
    assert!(matches!(FileSaver::default().save_field(None), Err(Error::InvalidFile)));
}

#[test]
fn buffer_is_held_to_the_cap_before_its_name() {
    let saver = FileSaver::new("/uploads", Some(vec!["png"]), 4);
    assert!(matches!(saver.save_bytes_checked(b"12345", "a.png"), Err(Error::FileTooLarge(4))));
    assert!(matches!(saver.save_bytes_checked(b"12345", "a.gif"), Err(Error::FileTooLarge(4))));
    assert!(matches!(saver.save_bytes_checked(b"1234", "a.gif"), Err(Error::InvalidFile)));
    let f = saver.save_bytes_checked(b"1234", "a.png").unwrap();
    assert_eq!(f.dir().map(|d| d.as_str()), Some("/uploads"));
    assert_generated(f.filename(), "png");
}

#[test]
fn unchecked_buffer_is_not_held_to_the_cap() {
    let saver = FileSaver::new("/uploads", Some(vec!["png"]), 4);
    let f = saver.save_bytes(b"123456789", "a.png").unwrap();
    assert_eq!(f.dir().map(|d| d.as_str()), Some("/uploads"));
    assert_generated(f.filename(), "png");
}

#[test]
fn default_policy_has_no_cap() {
    let saver = File::saver();
    let big = vec![0u8; 100000];
    let f = saver.save_bytes_checked(&big, "a.bin").unwrap();
    assert_eq!(f.dir().map(|d| d.as_str()), Some("./"));
    let mut up = FileSaver::default().save_field(Some("a.bin")).unwrap();
    assert_eq!(up.chunk(usize::MAX), ChunkAction::Write);
    assert_eq!(up.chunk(usize::MAX), ChunkAction::Write);
    assert!(up.finish().is_ok());
}

#[test]
fn copy_keeps_the_extension_of_the_new_name() {
    let saver = FileSaver::default().dir("/data").max_size(10);
    let f = saver.copy("report.csv").unwrap();
    assert_eq!(f.dir().map(|d| d.as_str()), Some("/data"));
    assert_generated(f.filename(), "csv");
}

#[test]
fn stream_within_the_cap_is_stored() {
    let saver = FileSaver::new("/uploads", Some(vec!["pdf"]), 1048576);
    let mut up = saver.save_field(Some("resume.pdf")).unwrap();
    assert_eq!(up.file().dir().map(|d| d.as_str()), Some("/uploads"));
    let mut sent = 0usize;
    while sent < 500000 {
        assert_eq!(up.chunk(4096.min(500000 - sent)), ChunkAction::Write);
        sent += 4096.min(500000 - sent);
    }
    let f = up.finish().unwrap();
    assert_eq!(f.dir().map(|d| d.as_str()), Some("/uploads"));
    assert_generated(f.filename(), "pdf");
}

#[test]
fn stream_over_the_cap_is_aborted() {
    let saver = FileSaver::new("/uploads", None, 10);
    let mut up = saver.save_field(Some("a.bin")).unwrap();
    assert_eq!(up.chunk(4), ChunkAction::Write);
    assert_eq!(up.chunk(6), ChunkAction::Write);
    assert_eq!(up.chunk(0), ChunkAction::Write);
    assert_eq!(up.chunk(1), ChunkAction::Abort(Error::FileTooLarge(10)));
    assert_eq!(up.chunk(0), ChunkAction::Abort(Error::FileTooLarge(10)));
    assert!(matches!(up.finish(), Err(Error::FileTooLarge(10))));
}

#[test]
fn broken_stream_is_an_io_error() {
    let saver = FileSaver::default().max_size(10);
    let mut up = saver.save_field(Some("a.bin")).unwrap();
    assert_eq!(up.chunk(3), ChunkAction::Write);
    assert_eq!(up.fault("connection reset".to_string()), Error::IOError("connection reset".to_string()));
}

#[test]
fn first_chunk_over_the_cap_is_aborted() {
    let saver = FileSaver::default().max_size(0);
    let mut up = saver.clone().save_field(Some("a.bin")).unwrap();
    assert_eq!(up.chunk(1), ChunkAction::Abort(Error::FileTooLarge(0)));
    let mut empty = saver.save_field(Some("a.bin")).unwrap();
    assert_eq!(empty.chunk(0), ChunkAction::Write);
    assert!(empty.finish().is_ok());
}

#[test]
fn huge_chunks_do_not_wrap_the_count() {
    let saver = FileSaver::default().max_size(usize::MAX);
    let mut up = saver.save_field(Some("a.bin")).unwrap();
    assert_eq!(up.chunk(usize::MAX - 1), ChunkAction::Write);
    assert_eq!(up.chunk(2), ChunkAction::Abort(Error::FileTooLarge(usize::MAX)));
}

#[test]
fn removal_needs_a_storage_location() {
    let f = File::detached("abc.png".to_string());
    assert_eq!(f.dir(), None);
    assert_eq!(f.remove(), Err(Error::StorageLocationMissing));
    let g = f.attach("/uploads".to_string());
    assert_eq!(g.remove().map(|d| d.as_str()), Ok("/uploads"));
    assert_eq!(g.filename(), "abc.png");
}

#[test]
fn handle_keeps_name_and_location() {
    let f = File::new("n.txt".to_string(), "/d".to_string());
    assert_eq!(f.filename(), "n.txt");
    assert_eq!(f.dir().map(|d| d.as_str()), Some("/d"));
    assert_eq!(f.remove().map(|d| d.as_str()), Ok("/d"));
    assert_eq!(f.filename_owned(), "n.txt");
}

#[test]
fn time_as_text() {
    assert_eq!(Timestamp::new(2024, 1, 15, 10, 30, 0).unwrap().text(), "2024-01-15--10-30-00");
    assert_eq!(Timestamp::new(987, 6, 5, 4, 3, 2).unwrap().text(), "0987-06-05--04-03-02");
    assert_eq!(Timestamp::new(0, 1, 1, 0, 0, 0).unwrap().text(), "0000-01-01--00-00-00");
    assert_eq!(Timestamp::new(10000, 1, 1, 0, 0, 0).unwrap().text(), "+10000-01-01--00-00-00");
    assert_eq!(Timestamp::new(-1, 1, 1, 0, 0, 0).unwrap().text(), "-0001-01-01--00-00-00");
    assert_eq!(
        Timestamp::new(i32::MIN, 1, 1, 0, 0, 0).unwrap().text(),
        "-2147483648-01-01--00-00-00"
    );
    let mut s = String::from("at ");
    Timestamp::new(2024, 2, 29, 0, 0, 59).unwrap().push_text(&mut s);
    assert_eq!(s, "at 2024-02-29--00-00-59");
}

#[test]
fn time_out_of_range_is_refused() {
    assert_eq!(Timestamp::new(2024, 0, 1, 0, 0, 0), None);
    assert_eq!(Timestamp::new(2024, 13, 1, 0, 0, 0), None);
    assert_eq!(Timestamp::new(2024, 1, 0, 0, 0, 0), None);
    assert_eq!(Timestamp::new(2024, 1, 32, 0, 0, 0), None);
    assert_eq!(Timestamp::new(2024, 1, 1, 24, 0, 0), None);
    assert_eq!(Timestamp::new(2024, 1, 1, 0, 60, 0), None);
    assert_eq!(Timestamp::new(2024, 1, 1, 0, 0, 60), None);
    assert!(Timestamp::new(2024, 12, 31, 23, 59, 59).is_some());
}

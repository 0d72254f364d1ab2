use std::path::{Path, PathBuf};

use rdp_screenshot::decimal::append_decimal;
use rdp_screenshot::output_path::{numbered_file_name, numbered_output_path};
use rdp_screenshot::session::{save_path, SaveTarget};

#[test]
fn decimal_notation() {
    for (n, expected) in [
        (0, "n=0"),
        (9, "n=9"),
        (10, "n=10"),
        (90_210, "n=90210"),
        (u64::MAX, "n=18446744073709551615"),
    ] {
        let mut text = String::from("n=");
        append_decimal(&mut text, n);
        assert_eq!(text, expected);
    }
}

#[test]
fn decimal_notation_agrees_with_formatting() {
    let mut n: u64 = 1;
    while n < u64::MAX / 7 {
        let mut text = String::new();
        append_decimal(&mut text, n);
        assert_eq!(text, format!("{n}"));
        n = n * 7 + 3;
    }
}

#[test]
fn file_name_with_and_without_extension() {
    assert_eq!(numbered_file_name("shot", 1, Some("png")), "shot_1.png");
    assert_eq!(numbered_file_name("shot", 12, None), "shot_12");
    assert_eq!(numbered_file_name("", 3, Some("")), "_3.");
    assert_eq!(numbered_file_name("écran", 7, Some("png")), "écran_7.png");
}

#[test]
fn number_goes_before_the_extension() {
    assert_eq!(numbered_output_path(Path::new("out.png"), 1), PathBuf::from("out_1.png"));
    assert_eq!(
        numbered_output_path(Path::new("shots/out.png"), 42),
        PathBuf::from("shots/out_42.png")
    );
    assert_eq!(
        numbered_output_path(Path::new("/var/shots/out.tar.png"), 2),
        PathBuf::from("/var/shots/out.tar_2.png")
    );
}

#[test]
fn number_goes_last_without_an_extension() {
    assert_eq!(numbered_output_path(Path::new("out"), 5), PathBuf::from("out_5"));
    assert_eq!(numbered_output_path(Path::new("a.b/out"), 5), PathBuf::from("a.b/out_5"));
    assert_eq!(numbered_output_path(Path::new("dir/.hidden"), 5), PathBuf::from("dir/.hidden_5"));
}

#[test]
fn paths_without_a_file_name() {
    assert_eq!(numbered_output_path(Path::new(""), 1), PathBuf::from("_1"));
    assert_eq!(numbered_output_path(Path::new("/"), 1), PathBuf::from("_1"));
    assert_eq!(numbered_output_path(Path::new("a/.."), 1), PathBuf::from("a/_1"));
}

#[test]
fn empty_extension_keeps_its_dot() {
    assert_eq!(numbered_output_path(Path::new("out."), 1), PathBuf::from("out_1."));
}

#[test]
fn different_numbers_give_different_paths() {
    let base = Path::new("dir/shot.png");
    let mut seen: Vec<PathBuf> = vec![base.to_path_buf()];
    for n in 1..200 {
        let path = numbered_output_path(base, n);
        assert!(!seen.contains(&path));
        assert_eq!(path.file_name().unwrap().to_str().unwrap(), format!("shot_{n}.png"));
        assert_eq!(path.extension(), base.extension());
        assert_eq!(path.parent(), base.parent());
        seen.push(path);
    }
}

#[test]
fn targets_of_a_session() {
    let output = Path::new("dir/shot.png");
    assert_eq!(save_path(output, SaveTarget::Output), PathBuf::from("dir/shot.png"));
    assert_eq!(save_path(output, SaveTarget::Numbered(3)), PathBuf::from("dir/shot_3.png"));
}

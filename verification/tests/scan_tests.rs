use webp_batch::scan::{accepts_source, select_sources};

#[test]
fn accepts_the_four_image_extensions() {
    assert!(accepts_source(&b"a.jpg".to_vec()));
    assert!(accepts_source(&b"a.jpeg".to_vec()));
    assert!(accepts_source(&b"a.png".to_vec()));
    assert!(accepts_source(&b"a.gif".to_vec()));
    assert!(accepts_source(&b"deep/tree/a.png".to_vec()));
}

#[test]
fn rejects_other_extensions() {
    assert!(!accepts_source(&b"b.txt".to_vec()));
    assert!(!accepts_source(&b"a.webp".to_vec()));
    assert!(!accepts_source(&b"noext".to_vec()));
    assert!(!accepts_source(&b"dir.png/file".to_vec()));
    assert!(!accepts_source(&b"a.jpg.bak".to_vec()));
}

#[test]
fn filter_is_case_sensitive() {
    assert!(!accepts_source(&b"a.PNG".to_vec()));
    assert!(!accepts_source(&b"a.Jpg".to_vec()));
}

#[test]
fn dotfiles_have_no_extension() {
    assert!(!accepts_source(&b".png".to_vec()));
    assert!(accepts_source(&b"dir/.x.png".to_vec()));
}

#[test]
fn select_sources_keeps_accepted_in_order() {
    let paths = vec![
        b"t/a.png".to_vec(),
        b"t/b.txt".to_vec(),
        b"t/c.jpg".to_vec(),
        b"t/d.png".to_vec(),
        b"t/sub".to_vec(),
    ];
    let picked = select_sources(&paths);
    assert_eq!(picked, vec![b"t/a.png".to_vec(), b"t/c.jpg".to_vec(), b"t/d.png".to_vec()]);
}

#[test]
fn select_sources_of_nothing_is_empty() {
    assert_eq!(select_sources(&Vec::new()), Vec::<Vec<u8>>::new());
}

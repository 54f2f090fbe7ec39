use expand_tilde::expand_tilde_with;
use expand_tilde::path::join;
use expand_tilde::ExpandTilde;
use std::borrow::Cow;
use std::path::Path;
use std::path::PathBuf;

#[test]
fn test() {
    assert_eq!(
        b"/home/user/some/dir".to_vec(),
        expand_tilde_with(b"~/some/dir", b"/home/user").into_owned()
    );
    assert_eq!(
        b"some/dir".to_vec(),
        expand_tilde_with(b"some/dir", b"/home/user").into_owned()
    );
    assert_eq!(
        expand_tilde_with(b"~", b"/home/user"),
        b"/home/user".to_vec()
    );
}

#[test]
fn tilde_with_a_path_behind_it() {
    let expanded = expand_tilde_with(b"~/some/dir", b"/home/user");
    assert_eq!(expanded.as_ref(), b"/home/user/some/dir");
    assert!(matches!(expanded, Cow::Owned(_)));
}

#[test]
fn path_without_tilde_is_borrowed_unchanged() {
    let path = b"some/dir";
    let expanded = expand_tilde_with(path, b"/home/user");
    assert_eq!(expanded.as_ref(), b"some/dir");
    assert!(matches!(expanded, Cow::Borrowed(_)));
}

#[test]
fn tilde_alone_is_the_home_directory() {
    assert_eq!(expand_tilde_with(b"~", b"/home/user").as_ref(), b"/home/user");
    assert_eq!(expand_tilde_with(b"~", b"/").as_ref(), b"/");
    assert_eq!(expand_tilde_with(b"~", b"relative/home").as_ref(), b"relative/home");
    assert_eq!(expand_tilde_with(b"~", b"").as_ref(), b"");
}

#[test]
fn tilde_glued_to_a_name_is_no_tilde() {
    let expanded = expand_tilde_with(b"~user/dir", b"/home/user");
    assert_eq!(expanded.as_ref(), b"~user/dir");
    assert!(matches!(expanded, Cow::Borrowed(_)));
    assert_eq!(expand_tilde_with(b"~user", b"/home/user").as_ref(), b"~user");
    assert_eq!(expand_tilde_with(b"~~", b"/home/user").as_ref(), b"~~");
    assert_eq!(expand_tilde_with(b"~.", b"/home/user").as_ref(), b"~.");
}

#[test]
fn empty_path_is_unchanged() {
    let expanded = expand_tilde_with(b"", b"/home/user");
    assert_eq!(expanded.as_ref(), b"");
    assert!(matches!(expanded, Cow::Borrowed(_)));
}

#[test]
fn tilde_further_in_is_unchanged() {
    assert_eq!(expand_tilde_with(b"/~", b"/home/user").as_ref(), b"/~");
    assert_eq!(expand_tilde_with(b"/~/dir", b"/home/user").as_ref(), b"/~/dir");
    assert_eq!(expand_tilde_with(b"./~/dir", b"/home/user").as_ref(), b"./~/dir");
    assert_eq!(expand_tilde_with(b"dir/~", b"/home/user").as_ref(), b"dir/~");
    assert_eq!(expand_tilde_with(b" ~/dir", b"/home/user").as_ref(), b" ~/dir");
}

#[test]
fn tilde_with_only_separators_behind_it() {
    assert_eq!(expand_tilde_with(b"~/", b"/home/user").as_ref(), b"/home/user");
    assert_eq!(expand_tilde_with(b"~///", b"/home/user").as_ref(), b"/home/user");
}

#[test]
fn separators_behind_the_tilde_count_once() {
    assert_eq!(expand_tilde_with(b"~//dir", b"/home/user").as_ref(), b"/home/user/dir");
    assert_eq!(expand_tilde_with(b"~///a/b", b"/home/user").as_ref(), b"/home/user/a/b");
}

#[test]
fn what_follows_the_tilde_is_kept_byte_for_byte() {
    assert_eq!(expand_tilde_with(b"~/a//b/", b"/home/user").as_ref(), b"/home/user/a//b/");
    assert_eq!(expand_tilde_with(b"~/./a", b"/home/user").as_ref(), b"/home/user/./a");
    assert_eq!(expand_tilde_with(b"~/../a", b"/home/user").as_ref(), b"/home/user/../a");
    assert_eq!(expand_tilde_with(b"~/~", b"/home/user").as_ref(), b"/home/user/~");
    assert_eq!(expand_tilde_with(b"~/\xff\xfe", b"/home/user").as_ref(), b"/home/user/\xff\xfe");
}

#[test]
fn home_directory_that_ends_in_a_separator() {
    assert_eq!(expand_tilde_with(b"~/dir", b"/home/user/").as_ref(), b"/home/user/dir");
    assert_eq!(expand_tilde_with(b"~/dir", b"/").as_ref(), b"/dir");
    assert_eq!(expand_tilde_with(b"~", b"/home/user/").as_ref(), b"/home/user/");
}

#[test]
fn empty_home_directory_gives_a_relative_path() {
    assert_eq!(expand_tilde_with(b"~/dir", b"").as_ref(), b"dir");
}

#[test]
fn other_paths_expand_to_themselves_for_every_home() {
    let paths: [&[u8]; 7] = [b"", b"/", b"a", b"a/~", b"~a", b"/~/a", b"..//~"];
    let homes: [&[u8]; 5] = [b"", b"/", b"/home/user", b"~", b"rel/"];
    for path in paths {
        for home in homes {
            assert_eq!(expand_tilde_with(path, home).as_ref(), path);
        }
    }
}

#[test]
fn joined_tilde_expands_to_the_joined_home() {
    let rests: [&[u8]; 7] = [b"a", b"a/b", b"./a", b"a/", b"/abs", b"/", b"~"];
    let homes: [&[u8]; 5] = [b"", b"/", b"/home/user", b"/home/user/", b"~"];
    for rest in rests {
        for home in homes {
            let tilde_path = join(b"~", rest);
            assert_eq!(
                expand_tilde_with(&tilde_path, home).into_owned(),
                join(home, rest)
            );
        }
    }
}

#[test]
fn expanding_twice_is_expanding_once() {
    let paths: [&[u8]; 8] = [b"", b"~", b"~/", b"~/a", b"~//a/~", b"a/b", b"~a", b"/~"];
    let homes: [&[u8]; 4] = [b"/", b"/home/user", b"/home/user/", b"home/~"];
    for path in paths {
        for home in homes {
            let once = expand_tilde_with(path, home).into_owned();
            let twice = expand_tilde_with(&once, home).into_owned();
            assert_eq!(twice, once);
            let elsewhere = expand_tilde_with(&once, b"/other").into_owned();
            assert_eq!(elsewhere, once);
        }
    }
}

#[test]
fn home_that_begins_with_the_tilde_expands_again() {
    let once = expand_tilde_with(b"~/a", b"~/b").into_owned();
    assert_eq!(once, b"~/b/a".to_vec());
    let twice = expand_tilde_with(&once, b"~/b").into_owned();
    assert_eq!(twice, b"~/b/b/a".to_vec());
}

#[test]
fn methods_do_what_the_functions_do() {
    let path: &[u8] = b"~/some/dir";
    assert_eq!(
        path.expand_tilde_with(b"/home/user").as_ref(),
        b"/home/user/some/dir"
    );
    let plain: &[u8] = b"some/dir";
    assert!(matches!(plain.expand_tilde_with(b"/home/user"), Cow::Borrowed(_)));
    let owned: Vec<u8> = b"~".to_vec();
    assert_eq!(owned.expand_tilde_with(b"/home/user").as_ref(), b"/home/user");
}

#[test]
fn expansion_names_the_same_file_as_the_path_functions_of_std() {
    if std::path::MAIN_SEPARATOR != '/' {
        return;
    }
    let paths = ["~", "~/", "~/a", "~//a/b/", "~/./a/./b", "~/../a", "~/a/.", "~/~"];
    let homes = ["/home/user", "/home/user/", "/", "rel/home"];
    for path in paths {
        for home in homes {
            let ours = expand_tilde_with(path.as_bytes(), home.as_bytes()).into_owned();
            let ours = PathBuf::from(String::from_utf8(ours).unwrap());
            let rest = Path::new(path).strip_prefix("~").unwrap();
            assert_eq!(ours, Path::new(home).join(rest));
        }
    }
    for path in ["", "a", "~a/b", "/~", "./~", "a/~/b"] {
        assert!(Path::new(path).strip_prefix("~").is_err());
        let ours = expand_tilde_with(path.as_bytes(), b"/home/user");
        assert_eq!(ours.as_ref(), path.as_bytes());
    }
}

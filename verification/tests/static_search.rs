use module_image::search_path::{
    candidate_dirs, LOCAL_DIR, OUTPUT_DIR_VARIABLE, OUTPUT_SUBDIR, SEARCH_DIR_COUNT, SYSTEM_DIR,
    WINDOWS_DIR,
};
use module_image::static_image::StaticStep;
use module_image::get_static;

/// A file on the pretended disk: directory, name, and what a read gives.
struct Entry {
    dir: &'static str,
    name: &'static str,
    contents: Option<Vec<u8>>,
}

fn entry(dir: &'static str, name: &'static str, contents: Option<&[u8]>) -> Entry {
    Entry { dir, name, contents: contents.map(|bytes| bytes.to_vec()) }
}

fn lookup<'a>(disk: &'a [Entry], dir: &str, name: &str) -> Option<&'a Entry> {
    disk.iter().find(|e| e.dir == dir && e.name == name)
}

/// Runs a search against the pretended disk, and records every question.
fn search(
    output_dir: Option<&str>,
    image: &str,
    disk: &[Entry],
) -> (Option<Vec<u8>>, Vec<String>) {
    let mut asked: Vec<String> = Vec::new();
    let mut step = get_static(output_dir.map(|dir| dir.to_string()), image.to_string());
    loop {
        step = match step {
            StaticStep::Probe(probe) => {
                asked.push(format!("is_file {}|{}", probe.dir(), probe.name()));
                let found = lookup(disk, probe.dir(), probe.name()).is_some();
                probe.answer(found)
            }
            StaticStep::Read(read) => {
                asked.push(format!("read {}|{}", read.dir(), read.name()));
                let contents = lookup(disk, read.dir(), read.name()).and_then(|e| e.contents.clone());
                read.answer(contents)
            }
            StaticStep::Done(image) => return (image, asked),
        };
    }
}

#[test]
fn directory_constants_have_their_values() {
    assert_eq!(OUTPUT_DIR_VARIABLE, "OUT_DIR");
    assert_eq!(OUTPUT_SUBDIR, "\\game\\");
    assert_eq!(SYSTEM_DIR, "C:\\Windows\\system32\\");
    assert_eq!(WINDOWS_DIR, "C:\\Windows\\");
    assert_eq!(LOCAL_DIR, "game\\");
    assert_eq!(SEARCH_DIR_COUNT, 5);
}

#[test]
fn candidates_with_output_dir_set() {
    let dirs = candidate_dirs(Some("D:\\build\\out".to_string()));
    assert_eq!(
        dirs,
        vec![
            "D:\\build\\out\\game\\".to_string(),
            "".to_string(),
            "C:\\Windows\\system32\\".to_string(),
            "C:\\Windows\\".to_string(),
            "game\\".to_string(),
        ]
    );
}

#[test]
fn candidates_with_output_dir_unset() {
    let dirs = candidate_dirs(None);
    assert_eq!(dirs.len(), SEARCH_DIR_COUNT);
    assert_eq!(dirs[0], "\\game\\");
    assert_eq!(dirs[1], "");
    assert_eq!(dirs[2], "C:\\Windows\\system32\\");
    assert_eq!(dirs[3], "C:\\Windows\\");
    assert_eq!(dirs[4], "game\\");
}

#[test]
fn candidates_with_output_dir_empty_equal_those_with_it_unset() {
    assert_eq!(candidate_dirs(Some(String::new())), candidate_dirs(None));
}

#[test]
fn candidates_are_pairwise_different() {
    for out in [None, Some(""), Some("C:\\Windows"), Some("C:"), Some("C:\\Windows\\system32")] {
        let dirs = candidate_dirs(out.map(|dir| dir.to_string()));
        for i in 0..dirs.len() {
            for j in (i + 1)..dirs.len() {
                assert_ne!(dirs[i], dirs[j]);
            }
        }
    }
}

#[test]
fn search_begins_with_the_output_directory() {
    match get_static(Some("out".to_string()), "user32.dll".to_string()) {
        StaticStep::Probe(probe) => {
            assert_eq!(probe.dir(), "out\\game\\");
            assert_eq!(probe.name(), "user32.dll");
        }
        _ => panic!("a search begins with an existence check"),
    }
}

#[test]
fn file_in_one_directory_is_read() {
    let disk = [entry("C:\\Windows\\system32\\", "user32.dll", Some(&[0x4d, 0x5a, 0x90, 0x00]))];
    let (image, asked) = search(Some("out"), "user32.dll", &disk);
    assert_eq!(image, Some(vec![0x4d, 0x5a, 0x90, 0x00]));
    assert_eq!(
        asked,
        vec![
            "is_file out\\game\\|user32.dll",
            "is_file |user32.dll",
            "is_file C:\\Windows\\system32\\|user32.dll",
            "read C:\\Windows\\system32\\|user32.dll",
        ]
    );
}

#[test]
fn file_in_each_single_directory_is_read_from_there() {
    let dirs = candidate_dirs(Some("out".to_string()));
    let places = ["out\\game\\", "", "C:\\Windows\\system32\\", "C:\\Windows\\", "game\\"];
    for (i, place) in places.iter().enumerate() {
        let disk = [entry(place, "a.dll", Some(&[i as u8, 1, 2]))];
        let (image, asked) = search(Some("out"), "a.dll", &disk);
        assert_eq!(image, Some(vec![i as u8, 1, 2]));
        assert_eq!(asked.len(), i + 2);
        for k in 0..=i {
            assert_eq!(asked[k], format!("is_file {}|a.dll", dirs[k]));
        }
        assert_eq!(asked[i + 1], format!("read {}|a.dll", place));
    }
}

#[test]
fn earlier_of_two_directories_wins() {
    let disk = [
        entry("game\\", "d3d9.dll", Some(b"local")),
        entry("", "d3d9.dll", Some(b"working directory")),
    ];
    let (image, asked) = search(None, "d3d9.dll", &disk);
    assert_eq!(image, Some(b"working directory".to_vec()));
    assert_eq!(asked, vec!["is_file \\game\\|d3d9.dll", "is_file |d3d9.dll", "read |d3d9.dll"]);
}

#[test]
fn output_directory_wins_over_every_other() {
    let disk = [
        entry("", "x.dll", Some(b"1")),
        entry("C:\\Windows\\system32\\", "x.dll", Some(b"2")),
        entry("C:\\Windows\\", "x.dll", Some(b"3")),
        entry("game\\", "x.dll", Some(b"4")),
        entry("target\\game\\", "x.dll", Some(b"0")),
    ];
    let (image, asked) = search(Some("target"), "x.dll", &disk);
    assert_eq!(image, Some(b"0".to_vec()));
    assert_eq!(asked, vec!["is_file target\\game\\|x.dll", "read target\\game\\|x.dll"]);
}

#[test]
fn system_directory_wins_over_root_and_local() {
    let disk = [
        entry("game\\", "x.dll", Some(b"4")),
        entry("C:\\Windows\\", "x.dll", Some(b"3")),
        entry("C:\\Windows\\system32\\", "x.dll", Some(b"2")),
    ];
    let (image, _) = search(None, "x.dll", &disk);
    assert_eq!(image, Some(b"2".to_vec()));
}

#[test]
fn file_in_no_directory_is_absent() {
    let disk = [entry("elsewhere\\", "user32.dll", Some(b"not a candidate"))];
    let (image, asked) = search(Some("out"), "user32.dll", &disk);
    assert_eq!(image, None);
    assert_eq!(
        asked,
        vec![
            "is_file out\\game\\|user32.dll",
            "is_file |user32.dll",
            "is_file C:\\Windows\\system32\\|user32.dll",
            "is_file C:\\Windows\\|user32.dll",
            "is_file game\\|user32.dll",
        ]
    );
}

#[test]
fn unreadable_file_is_absent_and_ends_the_search() {
    let disk = [
        entry("C:\\Windows\\", "locked.dll", None),
        entry("game\\", "locked.dll", Some(b"readable, but later")),
    ];
    let (image, asked) = search(None, "locked.dll", &disk);
    assert_eq!(image, None);
    assert_eq!(asked.last().unwrap(), "read C:\\Windows\\|locked.dll");
    assert_eq!(asked.len(), 5);
}

#[test]
fn empty_file_is_found_empty() {
    let disk = [entry("", "empty.dll", Some(b""))];
    let (image, _) = search(None, "empty.dll", &disk);
    assert_eq!(image, Some(Vec::new()));
}

#[test]
fn file_name_is_handed_on_as_it_is() {
    for name in ["", "..\\..\\secret.dll", "C:\\abs\\x.dll", "UPPER.DLL", "sp ace.dll"] {
        let (image, asked) = search(None, name, &[]);
        assert_eq!(image, None);
        assert_eq!(asked.len(), 5);
        assert_eq!(asked[0], format!("is_file \\game\\|{}", name));
        assert_eq!(asked[4], format!("is_file game\\|{}", name));
    }
}

#[test]
fn other_name_in_a_candidate_directory_does_not_match() {
    let disk = [entry("", "user32.dll", Some(b"x"))];
    let (image, _) = search(None, "User32.dll", &disk);
    assert_eq!(image, None);
}

#[test]
fn missing_file_moves_to_the_next_directory() {
    let first = get_static(None, "a.dll".to_string());
    let second = match first {
        StaticStep::Probe(probe) => probe.answer(false),
        _ => panic!("a search begins with an existence check"),
    };
    match second {
        StaticStep::Probe(probe) => {
            assert_eq!(probe.dir(), "");
            assert_eq!(probe.name(), "a.dll");
        }
        _ => panic!("the second directory is tested next"),
    }
}

#[test]
fn existing_file_is_read_where_it_was_found() {
    let first = get_static(Some("o".to_string()), "a.dll".to_string());
    let second = match first {
        StaticStep::Probe(probe) => probe.answer(true),
        _ => panic!("a search begins with an existence check"),
    };
    let third = match second {
        StaticStep::Read(read) => {
            assert_eq!(read.dir(), "o\\game\\");
            assert_eq!(read.name(), "a.dll");
            read.answer(Some(vec![1, 2, 3]))
        }
        _ => panic!("a file that exists is read"),
    };
    match third {
        StaticStep::Done(image) => assert_eq!(image, Some(vec![1, 2, 3])),
        _ => panic!("a read ends the search"),
    }
}

#[test]
fn last_directory_without_the_file_ends_the_search() {
    let mut step = get_static(None, "a.dll".to_string());
    for _ in 0..4 {
        step = match step {
            StaticStep::Probe(probe) => probe.answer(false),
            _ => panic!("five directories are tested"),
        };
    }
    let last = match step {
        StaticStep::Probe(probe) => {
            assert_eq!(probe.dir(), "game\\");
            probe.answer(false)
        }
        _ => panic!("five directories are tested"),
    };
    assert!(matches!(last, StaticStep::Done(None)));
}

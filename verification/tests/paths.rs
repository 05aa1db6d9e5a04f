use pdmers::path::{
    ancestors, contains_parent_reference, extension, is_foreign_file_name, is_pdf_file_name,
    normalize_path_buf, split_components, starts_at_root,
};
use std::path::{Component, Path, PathBuf};

fn std_normal(source: &str) -> String {
    let mut normalized = PathBuf::new();
    for comp in Path::new(source).components() {
        match comp {
            Component::CurDir => {}
            other => normalized.push(other),
        }
    }
    normalized.to_string_lossy().into_owned()
}

const SAMPLES: [&str; 30] = [
    "", ".", "..", "/", "//", "./", "a", "./a", "a/", "a/.", "a/..", "a/./b", "a//b", "/a/b/",
    "/./a", "../a", "a/../b", ".hidden", "a/.hidden", "a.pdf", "dir.d/a", "a.tar.gz", "a.",
    "a..pdf", "...", "/..", "./some.file", "x/y/z.pdf", "é/ü.pdf", "a b/c d.pdf",
];

#[test]
fn normal_form_drops_the_steps_that_go_nowhere() {
    assert_eq!(normalize_path_buf("./some.file"), "some.file");
    assert_eq!(normalize_path_buf("a//b/"), "a/b");
    assert_eq!(normalize_path_buf("/a/./b"), "/a/b");
    assert_eq!(normalize_path_buf("a/../b"), "a/../b");
    assert_eq!(normalize_path_buf("."), "");
    assert_eq!(normalize_path_buf(""), "");
    assert_eq!(normalize_path_buf("/"), "/");
}

#[test]
fn normal_form_is_that_of_std() {
    for s in SAMPLES {
        assert_eq!(normalize_path_buf(s), std_normal(s), "{:?}", s);
    }
}

#[test]
fn components_are_those_of_std() {
    for s in SAMPLES {
        let expected: Vec<String> = Path::new(s)
            .components()
            .filter_map(|c| match c {
                Component::Normal(n) => Some(n.to_string_lossy().into_owned()),
                Component::ParentDir => Some("..".to_string()),
                _ => None,
            })
            .collect();
        assert_eq!(split_components(s), expected, "{:?}", s);
        assert_eq!(starts_at_root(s), Path::new(s).has_root(), "{:?}", s);
    }
}

#[test]
fn parent_references_are_found() {
    assert!(contains_parent_reference("somedir/../this.pdf"));
    assert!(contains_parent_reference(".."));
    assert!(contains_parent_reference("/a/b/.."));
    assert!(!contains_parent_reference("a/..b/c"));
    assert!(!contains_parent_reference("a/.../c"));
    assert!(!contains_parent_reference("a/./c"));
    assert!(!contains_parent_reference(""));
    for s in SAMPLES {
        let expected = Path::new(s).components().any(|c| c == Component::ParentDir);
        assert_eq!(contains_parent_reference(s), expected, "{:?}", s);
    }
}

#[test]
fn extension_is_that_of_std() {
    assert_eq!(extension("a.pdf"), Some("pdf".to_string()));
    assert_eq!(extension("a.tar.gz"), Some("gz".to_string()));
    assert_eq!(extension("a."), Some("".to_string()));
    assert_eq!(extension(".hidden"), None);
    assert_eq!(extension("dir.d/a"), None);
    assert_eq!(extension("a.pdf/"), Some("pdf".to_string()));
    assert_eq!(extension("a.pdf/.."), None);
    for s in SAMPLES {
        let expected = Path::new(s).extension().map(|e| e.to_string_lossy().into_owned());
        assert_eq!(extension(s), expected, "{:?}", s);
    }
}

#[test]
fn pdf_names_are_told_from_others() {
    assert!(is_pdf_file_name("a.pdf"));
    assert!(is_pdf_file_name("x/y/.z.pdf"));
    assert!(!is_pdf_file_name("a.PDF"));
    assert!(!is_pdf_file_name("pdf"));
    assert!(!is_pdf_file_name(".pdf"));
    assert!(!is_pdf_file_name("a.pdf.txt"));
    assert!(is_foreign_file_name("a.PDF"));
    assert!(is_foreign_file_name("a.pdf.txt"));
    assert!(is_foreign_file_name("a."));
    assert!(!is_foreign_file_name("a.pdf"));
    assert!(!is_foreign_file_name("a"));
    assert!(!is_foreign_file_name(".pdf"));
}

#[test]
fn ancestors_are_the_directories_above() {
    assert_eq!(ancestors("a/b/c.pdf"), vec!["a".to_string(), "a/b".to_string()]);
    assert_eq!(ancestors("/a/b/c.pdf"), vec!["/a".to_string(), "/a/b".to_string()]);
    assert_eq!(ancestors("./some//f.pdf"), vec!["some".to_string()]);
    assert_eq!(ancestors("f.pdf"), Vec::<String>::new());
    assert_eq!(ancestors(""), Vec::<String>::new());
    assert_eq!(ancestors("/"), Vec::<String>::new());
}

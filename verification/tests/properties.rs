use kime::properties::{compiler_path, include_dirs, package_names};
use kime::text::{lines_of, split_at_spaces};

#[test]
fn compiler_from_whereis() {
    assert_eq!(compiler_path("gcc: /usr/bin/gcc /usr/lib/gcc\n"), "/usr/bin/gcc");
    assert_eq!(compiler_path("clang: /opt/clang"), "/opt/clang");
    assert_eq!(compiler_path("cc:\n"), "/usr/bin/gcc");
}

#[test]
fn packages_from_list() {
    assert_eq!(
        package_names("gtk+-3.0 GTK+ - GNU Image\nglib-2.0   GLib\r\nzlib\n"),
        vec!["gtk+-3.0".to_string(), "glib-2.0".to_string(), "zlib".to_string()]
    );
    let text = "a b\r\nc\n\nd\r";
    let expected: Vec<String> = text
        .lines()
        .filter_map(|l| l.split(' ').next())
        .map(|s| s.to_string())
        .collect();
    assert_eq!(package_names(text), expected);
}

#[test]
fn include_dirs_from_cflags() {
    assert_eq!(
        include_dirs("-I/usr/include/gtk-3.0 -I/usr/include/glib-2.0 \n"),
        vec!["/usr/include/gtk-3.0".to_string(), "/usr/include/glib-2.0".to_string()]
    );
    assert_eq!(include_dirs("-I/x\n\n"), vec!["/x".to_string()]);
    assert_eq!(include_dirs("-pthread -DFOO"), Vec::<String>::new());
}

#[test]
fn splitting_like_std() {
    for s in ["", "a", "a b", " a  b ", "x y\nz"] {
        let std: Vec<String> = s.split(' ').map(|p| p.to_string()).collect();
        assert_eq!(split_at_spaces(s), std);
    }
    for s in ["", "a", "a\n", "a\r\nb", "a\n\nb\r", "\r\n", "x\ry\n"] {
        let std: Vec<String> = s.lines().map(|p| p.to_string()).collect();
        assert_eq!(lines_of(s), std);
    }
}

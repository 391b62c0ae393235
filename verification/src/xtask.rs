//! The build plan of the project's build tool: build modes, frontends, and
//! which packages and CMake switches a build selects.
use crate::text::{same_text, split_at_spaces, split_spaces};
use vstd::prelude::*;
use vstd::string::{StrSliceExecFns, StringExecFns};

verus! {

#[derive(Clone, Copy, Debug, PartialEq, Eq)]
pub enum BuildMode {
    Debug,
    Release,
}

impl BuildMode {
    /// The mode a command-line argument names: `Debug` or `Release`.
    pub fn from_name(s: &str) -> (r: Option<BuildMode>)
        ensures
            r == if s@ == "Debug"@ {
                Some(BuildMode::Debug)
            } else if s@ == "Release"@ {
                Some(BuildMode::Release)
            } else {
                None::<BuildMode>
            },
    {
        if same_text(s, "Debug") {
            Some(BuildMode::Debug)
        } else if same_text(s, "Release") {
            Some(BuildMode::Release)
        } else {
            None
        }
    }

    /// The CMake option that selects the build type.
    pub fn cmake_build_type(self) -> (r: &'static str)
        ensures
            r@ == match self {
                BuildMode::Debug => "-DCMAKE_BUILD_TYPE=Debug"@,
                BuildMode::Release => "-DCMAKE_BUILD_TYPE=Release"@,
            },
    {
        match self {
            BuildMode::Debug => "-DCMAKE_BUILD_TYPE=Debug",
            BuildMode::Release => "-DCMAKE_BUILD_TYPE=Release",
        }
    }

    pub fn is_release(self) -> (r: bool)
        ensures
            r == (self == BuildMode::Release),
    {
        match self {
            BuildMode::Debug => false,
            BuildMode::Release => true,
        }
    }

    /// Where cargo puts the binaries of this mode.
    pub fn cargo_target_dir(self) -> (r: &'static str)
        ensures
            r@ == match self {
                BuildMode::Debug => "target/debug"@,
                BuildMode::Release => "target/release"@,
            },
    {
        match self {
            BuildMode::Debug => "target/debug",
            BuildMode::Release => "target/release",
        }
    }
}

#[derive(Clone, Copy, Debug, PartialEq, Eq, Hash, Structural)]
pub enum Frontend {
    Xim,
    Wayland,
    Qt5,
    Qt6,
    Gtk2,
    Gtk3,
    Gtk4,
}

impl Frontend {
    /// Frontends built with CMake; XIM and Wayland are cargo packages.
    pub fn is_cmake(self) -> (r: bool)
        ensures
            r == !(self == Frontend::Xim || self == Frontend::Wayland),
    {
        match self {
            Frontend::Xim | Frontend::Wayland => false,
            _ => true,
        }
    }

    /// The name used on the command line and in CMake options.
    pub fn name(self) -> (r: &'static str)
        ensures
            r@ == self.name_spec(),
    {
        match self {
            Frontend::Xim => "XIM",
            Frontend::Wayland => "WAYLAND",
            Frontend::Qt5 => "QT5",
            Frontend::Qt6 => "QT6",
            Frontend::Gtk2 => "GTK2",
            Frontend::Gtk3 => "GTK3",
            Frontend::Gtk4 => "GTK4",
        }
    }

    pub open spec fn name_spec(self) -> Seq<char> {
        match self {
            Frontend::Xim => "XIM"@,
            Frontend::Wayland => "WAYLAND"@,
            Frontend::Qt5 => "QT5"@,
            Frontend::Qt6 => "QT6"@,
            Frontend::Gtk2 => "GTK2"@,
            Frontend::Gtk3 => "GTK3"@,
            Frontend::Gtk4 => "GTK4"@,
        }
    }

    /// The frontend a command-line argument names, by its exact name.
    pub fn from_name(s: &str) -> (r: Option<Frontend>)
        ensures
            match r {
                Some(f) => s@ == f.name_spec(),
                None => forall|f: Frontend| s@ != #[trigger] f.name_spec(),
            },
    {
        let all = Frontend::all();
        let mut i: usize = 0;
        while i < all.len()
            invariant
                i <= all@.len(),
                all@ == Self::all_spec(),
                forall|j: int| 0 <= j < i ==> s@ != (#[trigger] all@[j]).name_spec(),
            decreases all@.len() - i,
        {
            let f = all[i];
            if same_text(s, f.name()) {
                return Some(f);
            }
            i = i + 1;
        }
        assert forall|f: Frontend| s@ != #[trigger] f.name_spec() by {
            match f {
                Frontend::Xim => assert(all@[0] == f),
                Frontend::Wayland => assert(all@[1] == f),
                Frontend::Qt5 => assert(all@[2] == f),
                Frontend::Qt6 => assert(all@[3] == f),
                Frontend::Gtk2 => assert(all@[4] == f),
                Frontend::Gtk3 => assert(all@[5] == f),
                Frontend::Gtk4 => assert(all@[6] == f),
            }
        }
        None
    }

    pub open spec fn all_spec() -> Seq<Frontend> {
        seq![
            Frontend::Xim,
            Frontend::Wayland,
            Frontend::Qt5,
            Frontend::Qt6,
            Frontend::Gtk2,
            Frontend::Gtk3,
            Frontend::Gtk4,
        ]
    }

    /// Every frontend, in declaration order.
    pub fn all() -> (r: Vec<Frontend>)
        ensures
            r@ == Self::all_spec(),
    {
        let mut v: Vec<Frontend> = Vec::new();
        v.push(Frontend::Xim);
        v.push(Frontend::Wayland);
        v.push(Frontend::Qt5);
        v.push(Frontend::Qt6);
        v.push(Frontend::Gtk2);
        v.push(Frontend::Gtk3);
        v.push(Frontend::Gtk4);
        assert(v@ =~= Self::all_spec());
        v
    }
}

/// Was `f` selected?
pub fn is_selected(selected: &Vec<Frontend>, f: Frontend) -> (r: bool)
    ensures
        r == selected@.contains(f),
{
    let mut i: usize = 0;
    while i < selected.len()
        invariant
            i <= selected@.len(),
            forall|j: int| 0 <= j < i ==> selected@[j] != f,
        decreases selected@.len() - i,
    {
        if selected[i] == f {
            assert(selected@[i as int] == f);
            return true;
        }
        i = i + 1;
    }
    false
}

/// For every CMake frontend, in declaration order, whether the build
/// enables it.
pub fn cmake_switches(selected: &Vec<Frontend>) -> (r: Vec<(Frontend, bool)>)
    ensures
        r@ == Frontend::all_spec().filter(|f: Frontend| !(f == Frontend::Xim || f
            == Frontend::Wayland)).map_values(|f: Frontend| (f, selected@.contains(f))),
{
    let all = Frontend::all();
    let ghost keep = |f: Frontend| !(f == Frontend::Xim || f == Frontend::Wayland);
    let ghost pair = |f: Frontend| (f, selected@.contains(f));
    let mut r: Vec<(Frontend, bool)> = Vec::new();
    let mut i: usize = 0;
    while i < all.len()
        invariant
            i <= all@.len(),
            all@ == Frontend::all_spec(),
            keep == (|f: Frontend| !(f == Frontend::Xim || f == Frontend::Wayland)),
            pair == (|f: Frontend| (f, selected@.contains(f))),
            r@ == all@.take(i as int).filter(keep).map_values(pair),
        decreases all@.len() - i,
    {
        let f = all[i];
        let ghost prev = all@.take(i as int).filter(keep);
        let ghost s1 = all@.take(i + 1);
        proof {
            reveal_with_fuel(Seq::filter, 1);
            assert(s1.drop_last() =~= all@.take(i as int));
            assert(s1.last() == f);
            assert(s1.filter(keep) == if keep(f) {
                prev.push(f)
            } else {
                prev
            });
            assert(prev.push(f).map_values(pair) =~= prev.map_values(pair).push(pair(f)));
        }
        if f.is_cmake() {
            let on = is_selected(selected, f);
            r.push((f, on));
            assert(r@ == s1.filter(keep).map_values(pair));
        } else {
            assert(r@ == s1.filter(keep).map_values(pair));
        }
        i = i + 1;
        assert(r@ =~= all@.take(i as int).filter(keep).map_values(pair));
    }
    assert(all@.take(all@.len() as int) =~= all@);
    r
}

/// The cargo packages a build compiles, with the binary each produces:
/// the indicator and the engine always, then the XIM and Wayland
/// frontends when selected.
pub fn cargo_projects(selected: &Vec<Frontend>) -> (r: Vec<(&'static str, &'static str)>)
    ensures
        r@.len() == 2 + (if selected@.contains(Frontend::Xim) {
            1int
        } else {
            0
        }) + (if selected@.contains(Frontend::Wayland) {
            1int
        } else {
            0
        }),
        r@[0].0@ == "kime-indicator"@ && r@[0].1@ == "kime-indicator"@,
        r@[1].0@ == "kime-engine-capi"@ && r@[1].1@ == "libkime_engine.so"@,
        selected@.contains(Frontend::Xim) ==> r@[2].0@ == "kime-xim"@ && r@[2].1@ == "kime-xim"@,
        selected@.contains(Frontend::Wayland) ==> ({
            let k = r@.len() - 1;
            r@[k].0@ == "kime-wayland"@ && r@[k].1@ == "kime-wayland"@
        }),
{
    let mut r: Vec<(&'static str, &'static str)> = Vec::new();
    r.push(("kime-indicator", "kime-indicator"));
    r.push(("kime-engine-capi", "libkime_engine.so"));
    if is_selected(selected, Frontend::Xim) {
        r.push(("kime-xim", "kime-xim"));
    }
    if is_selected(selected, Frontend::Wayland) {
        r.push(("kime-wayland", "kime-wayland"));
    }
    r
}

/// The CMake option that switches a frontend on or off:
/// `-DENABLE_<name>=ON` or `=OFF`.
pub fn cmake_flag(f: Frontend, on: bool) -> (r: String)
    ensures
        r@ == "-DENABLE_"@ + f.name_spec() + "="@ + (if on {
            "ON"@
        } else {
            "OFF"@
        }),
{
    let mut r = String::from_str("-DENABLE_");
    r.append(f.name());
    r.append("=");
    if on {
        r.append("ON");
    } else {
        r.append("OFF");
    }
    r
}

/// The extra arguments an environment variable passes to a build tool:
/// its value split at each space, or none when it is not set.
pub fn extra_args(var: Option<&str>) -> (r: Vec<String>)
    ensures
        match var {
            Some(v) => r@.map_values(|a: String| a@) == split_spaces(v@),
            None => r@.len() == 0,
        },
{
    match var {
        Some(v) => split_at_spaces(v),
        None => Vec::new(),
    }
}

/// The mode `install` gets for a file: `-Dsm755` (stripped, executable)
/// for executables, `-Dm644` otherwise.
pub fn install_mode(executable: bool) -> (r: &'static str)
    ensures
        r@ == if executable {
            "-Dsm755"@
        } else {
            "-Dm644"@
        },
{
    if executable {
        "-Dsm755"
    } else {
        "-Dm644"
    }
}

/// The files an installation copies: each file of the build output and
/// its path under the target directory.
pub open spec fn install_plan_spec() -> Seq<(Seq<char>, Seq<char>)> {
    seq![
        ("kime-indicator"@, "usr/bin/kime-indicator"@),
        ("kime-xim"@, "usr/bin/kime-xim"@),
        ("kime-wayland"@, "usr/bin/kime-wayland"@),
        ("libkime-gtk2.so"@, "usr/lib/gtk-2.0/2.10.0/immodules/im-kime.so"@),
        ("libkime-gtk3.so"@, "usr/lib/gtk-3.0/3.0.0/immodules/im-kime.so"@),
        ("libkime-gtk4.so"@, "usr/lib/gtk-4.0/4.0.0/immodules/libkime-gtk4.so"@),
        ("libkime-qt5.so"@, "usr/lib/qt/plugins/platforminputcontexts/libkimeplatforminputcontextplugin.so"@),
        ("libkime-qt6.so"@, "usr/lib/qt6/plugins/platforminputcontexts/libkimeplatforminputcontextplugin.so"@),
        ("libkime_engine.so"@, "usr/lib/libkime_engine.so"@),
        ("kime_engine.h"@, "usr/include/kime_engine.h"@),
        ("default_config.yaml"@, "etc/kime/config.yaml"@),
        ("kime-eng-64x64.png"@, "usr/share/kime/kime-eng-64x64.png"@),
        ("kime-han-64x64.png"@, "usr/share/kime/kime-han-64x64.png"@),
    ]
}

pub fn install_plan() -> (r: Vec<(&'static str, &'static str)>)
    ensures
        r@.map_values(|p: (&'static str, &'static str)| (p.0@, p.1@)) == install_plan_spec(),
{
    let mut r: Vec<(&'static str, &'static str)> = Vec::new();
    r.push(("kime-indicator", "usr/bin/kime-indicator"));
    r.push(("kime-xim", "usr/bin/kime-xim"));
    r.push(("kime-wayland", "usr/bin/kime-wayland"));
    r.push(("libkime-gtk2.so", "usr/lib/gtk-2.0/2.10.0/immodules/im-kime.so"));
    r.push(("libkime-gtk3.so", "usr/lib/gtk-3.0/3.0.0/immodules/im-kime.so"));
    r.push(("libkime-gtk4.so", "usr/lib/gtk-4.0/4.0.0/immodules/libkime-gtk4.so"));
    r.push(
        (
            "libkime-qt5.so",
            "usr/lib/qt/plugins/platforminputcontexts/libkimeplatforminputcontextplugin.so",
        ),
    );
    r.push(
        (
            "libkime-qt6.so",
            "usr/lib/qt6/plugins/platforminputcontexts/libkimeplatforminputcontextplugin.so",
        ),
    );
    r.push(("libkime_engine.so", "usr/lib/libkime_engine.so"));
    r.push(("kime_engine.h", "usr/include/kime_engine.h"));
    r.push(("default_config.yaml", "etc/kime/config.yaml"));
    r.push(("kime-eng-64x64.png", "usr/share/kime/kime-eng-64x64.png"));
    r.push(("kime-han-64x64.png", "usr/share/kime/kime-han-64x64.png"));
    assert(r@.map_values(|p: (&'static str, &'static str)| (p.0@, p.1@)) =~= install_plan_spec());
    r
}

/// The name of the GTK input module built for GTK major version `d`.
pub open spec fn gtk_module_file(d: char) -> Seq<char> {
    "libkime-gtk"@ + seq![d] + ".so"@
}

/// The directory under which GTK major version `d` looks for input modules
/// (below it, the binary version and `immodules`).
pub open spec fn gtk_module_dir(d: char) -> Seq<char> {
    "usr/lib/gtk-"@ + seq![d] + ".0/"@
}

/// An installation copies each file of the build output once and writes it
/// to a path of its own, so that no file replaces another; and the input
/// module built for a GTK major version goes under that version's
/// directory.
pub proof fn law_install_plan_targets()
    ensures
        forall|i: int, j: int|
            0 <= i < j < install_plan_spec().len() ==> #[trigger] install_plan_spec()[i].0
                != #[trigger] install_plan_spec()[j].0,
        forall|i: int, j: int|
            0 <= i < j < install_plan_spec().len() ==> #[trigger] install_plan_spec()[i].1
                != #[trigger] install_plan_spec()[j].1,
        forall|i: int, d: char|
            #![trigger install_plan_spec()[i], gtk_module_file(d)]
            0 <= i < install_plan_spec().len() && install_plan_spec()[i].0 == gtk_module_file(d)
                ==> {
                let dir = gtk_module_dir(d);
                &&& dir.len() <= install_plan_spec()[i].1.len()
                &&& install_plan_spec()[i].1.subrange(0, dir.len() as int) == dir
            },
{
    reveal_strlit("kime-indicator");
    reveal_strlit("usr/bin/kime-indicator");
    reveal_strlit("kime-xim");
    reveal_strlit("usr/bin/kime-xim");
    reveal_strlit("kime-wayland");
    reveal_strlit("usr/bin/kime-wayland");
    reveal_strlit("libkime-gtk2.so");
    reveal_strlit("usr/lib/gtk-2.0/2.10.0/immodules/im-kime.so");
    reveal_strlit("libkime-gtk3.so");
    reveal_strlit("usr/lib/gtk-3.0/3.0.0/immodules/im-kime.so");
    reveal_strlit("libkime-gtk4.so");
    reveal_strlit("usr/lib/gtk-4.0/4.0.0/immodules/libkime-gtk4.so");
    reveal_strlit("libkime-qt5.so");
    reveal_strlit("usr/lib/qt/plugins/platforminputcontexts/libkimeplatforminputcontextplugin.so");
    reveal_strlit("libkime-qt6.so");
    reveal_strlit("usr/lib/qt6/plugins/platforminputcontexts/libkimeplatforminputcontextplugin.so");
    reveal_strlit("libkime_engine.so");
    reveal_strlit("usr/lib/libkime_engine.so");
    reveal_strlit("kime_engine.h");
    reveal_strlit("usr/include/kime_engine.h");
    reveal_strlit("default_config.yaml");
    reveal_strlit("etc/kime/config.yaml");
    reveal_strlit("kime-eng-64x64.png");
    reveal_strlit("usr/share/kime/kime-eng-64x64.png");
    reveal_strlit("kime-han-64x64.png");
    reveal_strlit("usr/share/kime/kime-han-64x64.png");
    reveal_strlit("libkime-gtk");
    reveal_strlit(".so");
    reveal_strlit("usr/lib/gtk-");
    reveal_strlit(".0/");
    let s = install_plan_spec();
    assert forall|i: int, j: int| 0 <= i < j < s.len() implies #[trigger] s[i].1 != #[trigger] s[j].1 by {
        if i == 8 && j == 9 {
            assert(s[i].1[4] != s[j].1[4]);
        } else if i == 2 && j == 10 {
            assert(s[i].1[0] != s[j].1[0]);
        } else if i == 11 && j == 12 {
            assert(s[i].1[20] != s[j].1[20]);
        } else {
            assert(s[i].1.len() != s[j].1.len());
        }
    }
    assert forall|i: int, j: int| 0 <= i < j < s.len() implies #[trigger] s[i].0 != #[trigger] s[j].0 by {
        if s[i].0.len() == s[j].0.len() {
            if i == 0 {
                assert(s[i].0[0] != s[j].0[0]);
            } else if i == 6 || i == 3 || i == 4 {
                assert(s[i].0[10] != s[j].0[10] || s[i].0[11] != s[j].0[11]);
            } else {
                assert(s[i].0[5] != s[j].0[5]);
            }
        }
    }
    assert forall|i: int, d: char|
        #![trigger s[i], gtk_module_file(d)]
        0 <= i < s.len() && s[i].0 == gtk_module_file(d) implies ({
            let dir = gtk_module_dir(d);
            &&& dir.len() <= s[i].1.len()
            &&& s[i].1.subrange(0, dir.len() as int) == dir
        }) by {
        assert(gtk_module_file(d).len() == 15);
        assert(s[i].0.len() == 15);
        assert(3 <= i <= 5);
        assert(gtk_module_file(d)[11] == d);
        assert(s[i].0[11] == d);
        let dir = gtk_module_dir(d);
        assert(s[i].1.subrange(0, dir.len() as int) =~= dir);
    }
}

} // verus!

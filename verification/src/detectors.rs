//! The table of known regenerable artifact directories.

use vstd::prelude::*;

verus! {

/// A detector recognizes a directory (by name, and optionally by a sibling
/// "marker" file that must exist alongside it) as a safe-to-delete,
/// regenerable build artifact.
#[derive(Debug, Clone, Copy)]
pub struct Detector {
    /// Human readable ecosystem/tool name, shown in output.
    pub label: &'static str,
    /// The directory name we're looking for (e.g. "node_modules").
    pub dir_name: &'static str,
    /// If set, only match when a file with this name exists as a sibling
    /// of the matched directory (helps avoid false positives on generic
    /// names like "build" or "dist"). A marker that starts with '.' and holds
    /// no other '.' (".csproj") stands for any file with that extension.
    pub marker_sibling: Option<&'static str>,
    /// The command the user would run to regenerate this artifact.
    pub regenerate_hint: &'static str,
}

/// A detector as character sequences.
pub struct DetectorView {
    pub label: Seq<char>,
    pub dir_name: Seq<char>,
    pub marker_sibling: Option<Seq<char>>,
    pub regenerate_hint: Seq<char>,
}

impl View for Detector {
    type V = DetectorView;

    open spec fn view(&self) -> DetectorView {
        DetectorView {
            label: self.label@,
            dir_name: self.dir_name@,
            marker_sibling: match self.marker_sibling {
                Some(m) => Some(m@),
                None => None,
            },
            regenerate_hint: self.regenerate_hint@,
        }
    }
}

pub open spec fn entry(
    label: Seq<char>,
    dir_name: Seq<char>,
    marker_sibling: Option<Seq<char>>,
    regenerate_hint: Seq<char>,
) -> DetectorView {
    DetectorView { label, dir_name, marker_sibling, regenerate_hint }
}

/// The full list of known reclaimable directories, in the order in which they
/// are tried. Ordered roughly by how commonly people hit them.
pub open spec fn detector_table() -> Seq<DetectorView> {
    seq![
        entry("Node.js"@, "node_modules"@, None, "npm install / yarn / pnpm install"@),
        entry("Rust"@, "target"@, Some("Cargo.toml"@), "cargo build"@),
        entry("Python venv"@, ".venv"@, None, "python -m venv .venv && pip install -r requirements.txt"@),
        entry("Python venv"@, "venv"@, None, "python -m venv venv && pip install -r requirements.txt"@),
        entry("Python cache"@, "__pycache__"@, None, "regenerated automatically on next run"@),
        entry("Gradle"@, ".gradle"@, None, "./gradlew build"@),
        entry("Gradle build output"@, "build"@, Some("build.gradle"@), "./gradlew build"@),
        entry("Gradle build output"@, "build"@, Some("build.gradle.kts"@), "./gradlew build"@),
        entry("Maven"@, "target"@, Some("pom.xml"@), "mvn package"@),
        entry("Xcode DerivedData"@, "DerivedData"@, None, "regenerated automatically on next Xcode build"@),
        entry("CocoaPods"@, "Pods"@, Some("Podfile"@), "pod install"@),
        entry(".NET"@, "bin"@, Some(".csproj"@), "dotnet build"@),
        entry(".NET"@, "obj"@, Some(".csproj"@), "dotnet build"@),
        entry("Next.js"@, ".next"@, None, "next build"@),
        entry("Nuxt"@, ".nuxt"@, None, "nuxt build"@),
        entry("Terraform"@, ".terraform"@, None, "terraform init"@),
        entry("CMake"@, "cmake-build-debug"@, None, "cmake --build ."@),
        entry("Android Studio"@, ".idea"@, None, "regenerated automatically by the IDE"@),
        entry("Composer (PHP)"@, "vendor"@, Some("composer.json"@), "composer install"@),
        entry("Go build cache"@, "vendor"@, Some("go.mod"@), "go mod vendor"@),
        entry("Ruby (Bundler)"@, ".bundle"@, Some("Gemfile"@), "bundle install"@),
        entry("Elixir"@, "_build"@, Some("mix.exs"@), "mix compile"@),
        entry("Elixir deps"@, "deps"@, Some("mix.exs"@), "mix deps.get"@),
        entry("Haskell (Stack)"@, ".stack-work"@, None, "stack build"@),
        entry("Haskell (Cabal)"@, "dist-newstyle"@, None, "cabal build"@),
        entry("Zig"@, "zig-cache"@, None, "zig build"@),
        entry("Zig output"@, "zig-out"@, None, "zig build"@),
        entry("Flutter / Dart"@, ".dart_tool"@, Some("pubspec.yaml"@), "flutter pub get / dart pub get"@),
        entry("Swift Package Manager"@, ".build"@, Some("Package.swift"@), "swift build"@),
    ]
}

/// Directory names that are never descended into: version control internals.
pub open spec fn skip_descending_table() -> Seq<Seq<char>> {
    seq![".git"@, ".hg"@, ".svn"@]
}

/// The views of a list of detectors.
pub open spec fn views_of(ds: Seq<Detector>) -> Seq<DetectorView> {
    ds.map_values(|d: Detector| d@)
}

/// The known detectors, in the order of `detector_table`.
pub fn detectors() -> (ds: Vec<Detector>)
    ensures
        views_of(ds@) == detector_table(),
{
    let ds = vec![
        Detector {
            label: "Node.js",
            dir_name: "node_modules",
            marker_sibling: None,
            regenerate_hint: "npm install / yarn / pnpm install",
        },
        Detector {
            label: "Rust",
            dir_name: "target",
            marker_sibling: Some("Cargo.toml"),
            regenerate_hint: "cargo build",
        },
        Detector {
            label: "Python venv",
            dir_name: ".venv",
            marker_sibling: None,
            regenerate_hint: "python -m venv .venv && pip install -r requirements.txt",
        },
        Detector {
            label: "Python venv",
            dir_name: "venv",
            marker_sibling: None,
            regenerate_hint: "python -m venv venv && pip install -r requirements.txt",
        },
        Detector {
            label: "Python cache",
            dir_name: "__pycache__",
            marker_sibling: None,
            regenerate_hint: "regenerated automatically on next run",
        },
        Detector {
            label: "Gradle",
            dir_name: ".gradle",
            marker_sibling: None,
            regenerate_hint: "./gradlew build",
        },
        Detector {
            label: "Gradle build output",
            dir_name: "build",
            marker_sibling: Some("build.gradle"),
            regenerate_hint: "./gradlew build",
        },
        Detector {
            label: "Gradle build output",
            dir_name: "build",
            marker_sibling: Some("build.gradle.kts"),
            regenerate_hint: "./gradlew build",
        },
        Detector {
            label: "Maven",
            dir_name: "target",
            marker_sibling: Some("pom.xml"),
            regenerate_hint: "mvn package",
        },
        Detector {
            label: "Xcode DerivedData",
            dir_name: "DerivedData",
            marker_sibling: None,
            regenerate_hint: "regenerated automatically on next Xcode build",
        },
        Detector {
            label: "CocoaPods",
            dir_name: "Pods",
            marker_sibling: Some("Podfile"),
            regenerate_hint: "pod install",
        },
        Detector {
            label: ".NET",
            dir_name: "bin",
            marker_sibling: Some(".csproj"),
            regenerate_hint: "dotnet build",
        },
        Detector {
            label: ".NET",
            dir_name: "obj",
            marker_sibling: Some(".csproj"),
            regenerate_hint: "dotnet build",
        },
        Detector {
            label: "Next.js",
            dir_name: ".next",
            marker_sibling: None,
            regenerate_hint: "next build",
        },
        Detector {
            label: "Nuxt",
            dir_name: ".nuxt",
            marker_sibling: None,
            regenerate_hint: "nuxt build",
        },
        Detector {
            label: "Terraform",
            dir_name: ".terraform",
            marker_sibling: None,
            regenerate_hint: "terraform init",
        },
        Detector {
            label: "CMake",
            dir_name: "cmake-build-debug",
            marker_sibling: None,
            regenerate_hint: "cmake --build .",
        },
        Detector {
            label: "Android Studio",
            dir_name: ".idea",
            marker_sibling: None,
            regenerate_hint: "regenerated automatically by the IDE",
        },
        Detector {
            label: "Composer (PHP)",
            dir_name: "vendor",
            marker_sibling: Some("composer.json"),
            regenerate_hint: "composer install",
        },
        Detector {
            label: "Go build cache",
            dir_name: "vendor",
            marker_sibling: Some("go.mod"),
            regenerate_hint: "go mod vendor",
        },
        Detector {
            label: "Ruby (Bundler)",
            dir_name: ".bundle",
            marker_sibling: Some("Gemfile"),
            regenerate_hint: "bundle install",
        },
        Detector {
            label: "Elixir",
            dir_name: "_build",
            marker_sibling: Some("mix.exs"),
            regenerate_hint: "mix compile",
        },
        Detector {
            label: "Elixir deps",
            dir_name: "deps",
            marker_sibling: Some("mix.exs"),
            regenerate_hint: "mix deps.get",
        },
        Detector {
            label: "Haskell (Stack)",
            dir_name: ".stack-work",
            marker_sibling: None,
            regenerate_hint: "stack build",
        },
        Detector {
            label: "Haskell (Cabal)",
            dir_name: "dist-newstyle",
            marker_sibling: None,
            regenerate_hint: "cabal build",
        },
        Detector {
            label: "Zig",
            dir_name: "zig-cache",
            marker_sibling: None,
            regenerate_hint: "zig build",
        },
        Detector {
            label: "Zig output",
            dir_name: "zig-out",
            marker_sibling: None,
            regenerate_hint: "zig build",
        },
        Detector {
            label: "Flutter / Dart",
            dir_name: ".dart_tool",
            marker_sibling: Some("pubspec.yaml"),
            regenerate_hint: "flutter pub get / dart pub get",
        },
        Detector {
            label: "Swift Package Manager",
            dir_name: ".build",
            marker_sibling: Some("Package.swift"),
            regenerate_hint: "swift build",
        },
    ];
    assert(views_of(ds@) =~= detector_table());
    ds
}

/// The directory names that are never descended into.
pub fn skip_descending() -> (names: Vec<&'static str>)
    ensures
        names@.map_values(|n: &'static str| n@) == skip_descending_table(),
{
    let names = vec![".git", ".hg", ".svn"];
    assert(names@.map_values(|n: &'static str| n@) =~= skip_descending_table());
    names
}

} // verus!

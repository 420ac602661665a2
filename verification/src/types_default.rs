//! The built-in table of file-type definitions: alias names mapped to the
//! path glob patterns they stand for.

use vstd::prelude::*;

verus! {

/// One entry of the built-in type table: its alias names and the path glob
/// patterns they stand for. The first alias is the entry's canonical name.
#[derive(Debug)]
pub struct TypeEntry {
    pub aliases: Vec<String>,
    pub globs: Vec<String>,
}

/// The mathematical shape of a table entry: two sequences of strings.
#[verifier::ext_equal]
pub ghost struct TypeEntryView {
    pub aliases: Seq<Seq<char>>,
    pub globs: Seq<Seq<char>>,
}

impl View for TypeEntry {
    type V = TypeEntryView;

    open spec fn view(&self) -> TypeEntryView {
        TypeEntryView { aliases: self.aliases.deep_view(), globs: self.globs.deep_view() }
    }
}

impl DeepView for TypeEntry {
    type V = TypeEntryView;

    open spec fn deep_view(&self) -> TypeEntryView {
        self.view()
    }
}

/// A table entry is well formed when it has at least one alias, so that a
/// canonical name exists, and at least one glob pattern.
pub open spec fn entry_wf(e: TypeEntryView) -> bool {
    e.aliases.len() >= 1 && e.globs.len() >= 1
}

/// Every entry of a well-formed table is well formed.
pub open spec fn table_wf(t: Seq<TypeEntryView>) -> bool {
    forall|i: int| 0 <= i < t.len() ==> entry_wf(#[trigger] t[i])
}

/// Copies a borrowed list of string slices into owned strings.
fn to_string_vec<const N: usize>(xs: &[&str; N]) -> (v: Vec<String>)
    ensures
        v.deep_view() == xs.deep_view(),
{
    let mut v: Vec<String> = Vec::new();
    let mut i: usize = 0;
    while i < N
        invariant
            i <= N,
            v@.len() == i,
            forall|k: int| 0 <= k < i ==> v@[k]@ == xs@[k]@,
        decreases N - i,
    {
        v.push(xs[i].to_owned());
        i = i + 1;
    }
    assert(v.deep_view() =~= xs.deep_view());
    v
}

/// Builds one table entry from borrowed alias and glob lists.
fn entry<const N: usize, const M: usize>(aliases: &[&str; N], globs: &[&str; M]) -> (e: TypeEntry)
    ensures
        e@.aliases == aliases.deep_view(),
        e@.globs == globs.deep_view(),
{
    TypeEntry { aliases: to_string_vec(aliases), globs: to_string_vec(globs) }
}

/// One stretch of the built-in table, as specification data.
pub open spec fn table_part_0() -> Seq<TypeEntryView> {
    seq![
        TypeEntryView { aliases: seq!["7z"@] , globs: seq!["*.7z"@] },
        TypeEntryView { aliases: seq!["aac"@] , globs: seq!["*.aac"@] },
        TypeEntryView { aliases: seq!["ada"@] , globs: seq!["*.adb"@, "*.ads"@] },
        TypeEntryView { aliases: seq!["agda"@] , globs: seq!["*.agda"@, "*.lagda"@] },
        TypeEntryView { aliases: seq!["ai"@] , globs: seq!["*.ai"@] },
        TypeEntryView { aliases: seq!["aidl"@] , globs: seq!["*.aidl"@] },
        TypeEntryView { aliases: seq!["alire"@] , globs: seq!["alire.toml"@] },
        TypeEntryView { aliases: seq!["amake"@] , globs: seq!["*.mk"@, "*.bp"@] },
        TypeEntryView { aliases: seq!["apk"@] , globs: seq!["*.apk"@, "*.apks"@, "*.aab"@, "*.xapk"@, "*.apkm"@, "*.akp"@] },
        TypeEntryView { aliases: seq!["appleimg"@] , globs: seq!["*.dmg"@, "*.smi"@, "*.img"@] },
        TypeEntryView { aliases: seq!["asciidoc"@] , globs: seq!["*.adoc"@, "*.asc"@, "*.asciidoc"@] },
        TypeEntryView { aliases: seq!["asm"@] , globs: seq!["*.asm"@, "*.s"@, "*.S"@] },
        TypeEntryView { aliases: seq!["asp"@] , globs: seq!["*.aspx"@, "*.aspx.cs"@, "*.aspx.vb"@, "*.ascx"@, "*.ascx.cs"@, "*.ascx.vb"@, "*.asp"@] },
        TypeEntryView { aliases: seq!["ats"@] , globs: seq!["*.ats"@, "*.dats"@, "*.sats"@, "*.hats"@] },
        TypeEntryView { aliases: seq!["avi"@] , globs: seq!["*.avi"@] },
        TypeEntryView { aliases: seq!["avif"@] , globs: seq!["*.avif"@] },
        TypeEntryView { aliases: seq!["avro"@] , globs: seq!["*.avdl"@, "*.avpr"@, "*.avsc"@] },
        TypeEntryView { aliases: seq!["awk"@] , globs: seq!["*.awk"@] },
        TypeEntryView { aliases: seq!["bat"@, "batch"@] , globs: seq!["*.bat"@] },
        TypeEntryView { aliases: seq!["bazel"@] , globs: seq!["*.bazel"@, "*.bzl"@, "*.BUILD"@, "*.bazelrc"@, "BUILD"@, "MODULE.bazel"@, "WORKSPACE"@, "WORKSPACE.bazel"@] },
    ]
}

/// Appends the same stretch of the table to `v`.
fn push_table_part_0(v: &mut Vec<TypeEntry>)
    ensures
        final(v).deep_view() == old(v).deep_view() + table_part_0(),
{
    v.push(entry(&["7z"], &["*.7z"]));
    v.push(entry(&["aac"], &["*.aac"]));
    v.push(entry(&["ada"], &["*.adb", "*.ads"]));
    v.push(entry(&["agda"], &["*.agda", "*.lagda"]));
    v.push(entry(&["ai"], &["*.ai"]));
    v.push(entry(&["aidl"], &["*.aidl"]));
    v.push(entry(&["alire"], &["alire.toml"]));
    v.push(entry(&["amake"], &["*.mk", "*.bp"]));
    v.push(entry(&["apk"], &["*.apk", "*.apks", "*.aab", "*.xapk", "*.apkm", "*.akp"]));
    v.push(entry(&["appleimg"], &["*.dmg", "*.smi", "*.img"]));
    v.push(entry(&["asciidoc"], &["*.adoc", "*.asc", "*.asciidoc"]));
    v.push(entry(&["asm"], &["*.asm", "*.s", "*.S"]));
    v.push(entry(&["asp"], &["*.aspx", "*.aspx.cs", "*.aspx.vb", "*.ascx", "*.ascx.cs", "*.ascx.vb", "*.asp"]));
    v.push(entry(&["ats"], &["*.ats", "*.dats", "*.sats", "*.hats"]));
    v.push(entry(&["avi"], &["*.avi"]));
    v.push(entry(&["avif"], &["*.avif"]));
    v.push(entry(&["avro"], &["*.avdl", "*.avpr", "*.avsc"]));
    v.push(entry(&["awk"], &["*.awk"]));
    v.push(entry(&["bat", "batch"], &["*.bat"]));
    v.push(entry(&["bazel"], &["*.bazel", "*.bzl", "*.BUILD", "*.bazelrc", "BUILD", "MODULE.bazel", "WORKSPACE", "WORKSPACE.bazel"]));
    assert(v.deep_view() =~~= old(v).deep_view() + table_part_0());
}

/// One stretch of the built-in table, as specification data.
pub open spec fn table_part_1() -> Seq<TypeEntryView> {
    seq![
        TypeEntryView { aliases: seq!["bitbake"@] , globs: seq!["*.bb"@, "*.bbappend"@, "*.bbclass"@, "*.conf"@, "*.inc"@] },
        TypeEntryView { aliases: seq!["bmp"@] , globs: seq!["*.bmp"@, "*.dib"@] },
        TypeEntryView { aliases: seq!["brotli"@] , globs: seq!["*.br"@] },
        TypeEntryView { aliases: seq!["buildstream"@] , globs: seq!["*.bst"@] },
        TypeEntryView { aliases: seq!["bzip2"@] , globs: seq!["*.bz2"@, "*.tbz2"@] },
        TypeEntryView { aliases: seq!["c"@] , globs: seq!["*.[chH]"@, "*.[chH].in"@, "*.cats"@] },
        TypeEntryView { aliases: seq!["cabal"@] , globs: seq!["*.cabal"@] },
        TypeEntryView { aliases: seq!["candid"@] , globs: seq!["*.did"@] },
        TypeEntryView { aliases: seq!["carp"@] , globs: seq!["*.carp"@] },
        TypeEntryView { aliases: seq!["cbor"@] , globs: seq!["*.cbor"@] },
        TypeEntryView { aliases: seq!["ceylon"@] , globs: seq!["*.ceylon"@] },
        TypeEntryView { aliases: seq!["clojure"@] , globs: seq!["*.clj"@, "*.cljc"@, "*.cljs"@, "*.cljx"@] },
        TypeEntryView { aliases: seq!["cmake"@] , globs: seq!["*.cmake"@, "CMakeLists.txt"@] },
        TypeEntryView { aliases: seq!["cmd"@] , globs: seq!["*.bat"@, "*.cmd"@] },
        TypeEntryView { aliases: seq!["cml"@] , globs: seq!["*.cml"@] },
        TypeEntryView { aliases: seq!["coffeescript"@] , globs: seq!["*.coffee"@] },
        TypeEntryView { aliases: seq!["config"@] , globs: seq!["*.cfg"@, "*.conf"@, "*.config"@, "*.ini"@] },
        TypeEntryView { aliases: seq!["coq"@] , globs: seq!["*.v"@] },
        TypeEntryView { aliases: seq!["cpp"@] , globs: seq!["*.[ChH]"@, "*.cc"@, "*.[ch]pp"@, "*.[ch]xx"@, "*.hh"@, "*.inl"@, "*.[ChH].in"@, "*.cc.in"@, "*.[ch]pp.in"@, "*.[ch]xx.in"@, "*.hh.in"@] },
        TypeEntryView { aliases: seq!["creole"@] , globs: seq!["*.creole"@] },
    ]
}

/// Appends the same stretch of the table to `v`.
fn push_table_part_1(v: &mut Vec<TypeEntry>)
    ensures
        final(v).deep_view() == old(v).deep_view() + table_part_1(),
{
    v.push(entry(&["bitbake"], &["*.bb", "*.bbappend", "*.bbclass", "*.conf", "*.inc"]));
    v.push(entry(&["bmp"], &["*.bmp", "*.dib"]));
    v.push(entry(&["brotli"], &["*.br"]));
    v.push(entry(&["buildstream"], &["*.bst"]));
    v.push(entry(&["bzip2"], &["*.bz2", "*.tbz2"]));
    v.push(entry(&["c"], &["*.[chH]", "*.[chH].in", "*.cats"]));
    v.push(entry(&["cabal"], &["*.cabal"]));
    v.push(entry(&["candid"], &["*.did"]));
    v.push(entry(&["carp"], &["*.carp"]));
    v.push(entry(&["cbor"], &["*.cbor"]));
    v.push(entry(&["ceylon"], &["*.ceylon"]));
    v.push(entry(&["clojure"], &["*.clj", "*.cljc", "*.cljs", "*.cljx"]));
    v.push(entry(&["cmake"], &["*.cmake", "CMakeLists.txt"]));
    v.push(entry(&["cmd"], &["*.bat", "*.cmd"]));
    v.push(entry(&["cml"], &["*.cml"]));
    v.push(entry(&["coffeescript"], &["*.coffee"]));
    v.push(entry(&["config"], &["*.cfg", "*.conf", "*.config", "*.ini"]));
    v.push(entry(&["coq"], &["*.v"]));
    v.push(entry(&["cpp"], &["*.[ChH]", "*.cc", "*.[ch]pp", "*.[ch]xx", "*.hh", "*.inl", "*.[ChH].in", "*.cc.in", "*.[ch]pp.in", "*.[ch]xx.in", "*.hh.in"]));
    v.push(entry(&["creole"], &["*.creole"]));
    assert(v.deep_view() =~~= old(v).deep_view() + table_part_1());
}

/// One stretch of the built-in table, as specification data.
pub open spec fn table_part_2() -> Seq<TypeEntryView> {
    seq![
        TypeEntryView { aliases: seq!["crystal"@] , globs: seq!["Projectfile"@, "*.cr"@, "*.ecr"@, "shard.yml"@] },
        TypeEntryView { aliases: seq!["cs"@] , globs: seq!["*.cs"@] },
        TypeEntryView { aliases: seq!["csharp"@] , globs: seq!["*.cs"@] },
        TypeEntryView { aliases: seq!["cshtml"@] , globs: seq!["*.cshtml"@] },
        TypeEntryView { aliases: seq!["csproj"@] , globs: seq!["*.csproj"@] },
        TypeEntryView { aliases: seq!["css"@] , globs: seq!["*.css"@, "*.scss"@] },
        TypeEntryView { aliases: seq!["csv"@] , globs: seq!["*.csv"@] },
        TypeEntryView { aliases: seq!["cuda"@] , globs: seq!["*.cu"@, "*.cuh"@] },
        TypeEntryView { aliases: seq!["cython"@] , globs: seq!["*.pyx"@, "*.pxi"@, "*.pxd"@] },
        TypeEntryView { aliases: seq!["d"@] , globs: seq!["*.d"@] },
        TypeEntryView { aliases: seq!["dart"@] , globs: seq!["*.dart"@] },
        TypeEntryView { aliases: seq!["deb"@] , globs: seq!["*.deb"@, "*.udeb"@] },
        TypeEntryView { aliases: seq!["designspace"@] , globs: seq!["*.designspace"@] },
        TypeEntryView { aliases: seq!["devicetree"@] , globs: seq!["*.dts"@, "*.dtsi"@] },
        TypeEntryView { aliases: seq!["dhall"@] , globs: seq!["*.dhall"@] },
        TypeEntryView { aliases: seq!["diff"@] , globs: seq!["*.patch"@, "*.diff"@] },
        TypeEntryView { aliases: seq!["dita"@] , globs: seq!["*.dita"@, "*.ditamap"@, "*.ditaval"@] },
        TypeEntryView { aliases: seq!["dll"@] , globs: seq!["*.dll"@, "*.DLL"@] },
        TypeEntryView { aliases: seq!["doc"@] , globs: seq!["*.doc"@, "*.docx"@] },
        TypeEntryView { aliases: seq!["docker"@] , globs: seq!["*Dockerfile*"@] },
    ]
}

/// Appends the same stretch of the table to `v`.
fn push_table_part_2(v: &mut Vec<TypeEntry>)
    ensures
        final(v).deep_view() == old(v).deep_view() + table_part_2(),
{
    v.push(entry(&["crystal"], &["Projectfile", "*.cr", "*.ecr", "shard.yml"]));
    v.push(entry(&["cs"], &["*.cs"]));
    v.push(entry(&["csharp"], &["*.cs"]));
    v.push(entry(&["cshtml"], &["*.cshtml"]));
    v.push(entry(&["csproj"], &["*.csproj"]));
    v.push(entry(&["css"], &["*.css", "*.scss"]));
    v.push(entry(&["csv"], &["*.csv"]));
    v.push(entry(&["cuda"], &["*.cu", "*.cuh"]));
    v.push(entry(&["cython"], &["*.pyx", "*.pxi", "*.pxd"]));
    v.push(entry(&["d"], &["*.d"]));
    v.push(entry(&["dart"], &["*.dart"]));
    v.push(entry(&["deb"], &["*.deb", "*.udeb"]));
    v.push(entry(&["designspace"], &["*.designspace"]));
    v.push(entry(&["devicetree"], &["*.dts", "*.dtsi"]));
    v.push(entry(&["dhall"], &["*.dhall"]));
    v.push(entry(&["diff"], &["*.patch", "*.diff"]));
    v.push(entry(&["dita"], &["*.dita", "*.ditamap", "*.ditaval"]));
    v.push(entry(&["dll"], &["*.dll", "*.DLL"]));
    v.push(entry(&["doc"], &["*.doc", "*.docx"]));
    v.push(entry(&["docker"], &["*Dockerfile*"]));
    assert(v.deep_view() =~~= old(v).deep_view() + table_part_2());
}

/// One stretch of the built-in table, as specification data.
pub open spec fn table_part_3() -> Seq<TypeEntryView> {
    seq![
        TypeEntryView { aliases: seq!["dockercompose"@] , globs: seq!["docker-compose.yml"@, "docker-compose.*.yml"@] },
        TypeEntryView { aliases: seq!["dts"@] , globs: seq!["*.dts"@, "*.dtsi"@] },
        TypeEntryView { aliases: seq!["dvc"@] , globs: seq!["Dvcfile"@, "*.dvc"@] },
        TypeEntryView { aliases: seq!["ebuild"@] , globs: seq!["*.ebuild"@, "*.eclass"@] },
        TypeEntryView { aliases: seq!["edn"@] , globs: seq!["*.edn"@] },
        TypeEntryView { aliases: seq!["elisp"@] , globs: seq!["*.el"@] },
        TypeEntryView { aliases: seq!["elixir"@] , globs: seq!["*.ex"@, "*.eex"@, "*.exs"@, "*.heex"@, "*.leex"@, "*.livemd"@] },
        TypeEntryView { aliases: seq!["elm"@] , globs: seq!["*.elm"@] },
        TypeEntryView { aliases: seq!["epub"@] , globs: seq!["*.epub"@] },
        TypeEntryView { aliases: seq!["erb"@] , globs: seq!["*.erb"@] },
        TypeEntryView { aliases: seq!["erlang"@] , globs: seq!["*.erl"@, "*.hrl"@] },
        TypeEntryView { aliases: seq!["exe"@] , globs: seq!["*.[Ee][Xx][Ee]"@] },
        TypeEntryView { aliases: seq!["fea"@] , globs: seq!["*.fea"@] },
        TypeEntryView { aliases: seq!["fennel"@] , globs: seq!["*.fnl"@] },
        TypeEntryView { aliases: seq!["fidl"@] , globs: seq!["*.fidl"@] },
        TypeEntryView { aliases: seq!["fish"@] , globs: seq!["*.fish"@] },
        TypeEntryView { aliases: seq!["flac"@] , globs: seq!["*.flac"@] },
        TypeEntryView { aliases: seq!["flatbuffers"@] , globs: seq!["*.fbs"@] },
        TypeEntryView { aliases: seq!["font"@] , globs: seq!["*.otc"@, "*.otf"@, "*.ttc"@, "*.ttf"@, "*.woff"@, "*.woff2"@] },
        TypeEntryView { aliases: seq!["fortran"@] , globs: seq!["*.f"@, "*.F"@, "*.f77"@, "*.F77"@, "*.pfo"@, "*.f90"@, "*.F90"@, "*.f95"@, "*.F95"@] },
    ]
}

/// Appends the same stretch of the table to `v`.
fn push_table_part_3(v: &mut Vec<TypeEntry>)
    ensures
        final(v).deep_view() == old(v).deep_view() + table_part_3(),
{
    v.push(entry(&["dockercompose"], &["docker-compose.yml", "docker-compose.*.yml"]));
    v.push(entry(&["dts"], &["*.dts", "*.dtsi"]));
    v.push(entry(&["dvc"], &["Dvcfile", "*.dvc"]));
    v.push(entry(&["ebuild"], &["*.ebuild", "*.eclass"]));
    v.push(entry(&["edn"], &["*.edn"]));
    v.push(entry(&["elisp"], &["*.el"]));
    v.push(entry(&["elixir"], &["*.ex", "*.eex", "*.exs", "*.heex", "*.leex", "*.livemd"]));
    v.push(entry(&["elm"], &["*.elm"]));
    v.push(entry(&["epub"], &["*.epub"]));
    v.push(entry(&["erb"], &["*.erb"]));
    v.push(entry(&["erlang"], &["*.erl", "*.hrl"]));
    v.push(entry(&["exe"], &["*.[Ee][Xx][Ee]"]));
    v.push(entry(&["fea"], &["*.fea"]));
    v.push(entry(&["fennel"], &["*.fnl"]));
    v.push(entry(&["fidl"], &["*.fidl"]));
    v.push(entry(&["fish"], &["*.fish"]));
    v.push(entry(&["flac"], &["*.flac"]));
    v.push(entry(&["flatbuffers"], &["*.fbs"]));
    v.push(entry(&["font"], &["*.otc", "*.otf", "*.ttc", "*.ttf", "*.woff", "*.woff2"]));
    v.push(entry(&["fortran"], &["*.f", "*.F", "*.f77", "*.F77", "*.pfo", "*.f90", "*.F90", "*.f95", "*.F95"]));
    assert(v.deep_view() =~~= old(v).deep_view() + table_part_3());
}

/// One stretch of the built-in table, as specification data.
pub open spec fn table_part_4() -> Seq<TypeEntryView> {
    seq![
        TypeEntryView { aliases: seq!["fsharp"@] , globs: seq!["*.fs"@, "*.fsx"@, "*.fsi"@] },
        TypeEntryView { aliases: seq!["fut"@] , globs: seq!["*.fut"@] },
        TypeEntryView { aliases: seq!["gap"@] , globs: seq!["*.g"@, "*.gap"@, "*.gi"@, "*.gd"@, "*.tst"@] },
        TypeEntryView { aliases: seq!["gif"@] , globs: seq!["*.gif"@] },
        TypeEntryView { aliases: seq!["gimp"@] , globs: seq!["*.xcf"@] },
        TypeEntryView { aliases: seq!["glyphs"@] , globs: seq!["*.glyphs"@] },
        TypeEntryView { aliases: seq!["glyphspkg"@] , globs: seq!["*.glyph"@, "*.plist"@] },
        TypeEntryView { aliases: seq!["gn"@] , globs: seq!["*.gn"@, "*.gni"@] },
        TypeEntryView { aliases: seq!["go"@] , globs: seq!["*.go"@] },
        TypeEntryView { aliases: seq!["gprbuild"@] , globs: seq!["*.gpr"@] },
        TypeEntryView { aliases: seq!["gradle"@] , globs: seq!["*.gradle"@, "*.gradle.kts"@, "gradle.properties"@, "gradle-wrapper.*"@, "gradlew"@, "gradlew.bat"@] },
        TypeEntryView { aliases: seq!["graphql"@] , globs: seq!["*.graphql"@, "*.graphqls"@] },
        TypeEntryView { aliases: seq!["groovy"@] , globs: seq!["*.groovy"@, "*.gradle"@] },
        TypeEntryView { aliases: seq!["gzip"@] , globs: seq!["*.gz"@, "*.tgz"@] },
        TypeEntryView { aliases: seq!["h"@] , globs: seq!["*.h"@, "*.hh"@, "*.hpp"@] },
        TypeEntryView { aliases: seq!["haml"@] , globs: seq!["*.haml"@] },
        TypeEntryView { aliases: seq!["hare"@] , globs: seq!["*.ha"@] },
        TypeEntryView { aliases: seq!["haskell"@] , globs: seq!["*.hs"@, "*.lhs"@, "*.cpphs"@, "*.c2hs"@, "*.hsc"@] },
        TypeEntryView { aliases: seq!["hbs"@] , globs: seq!["*.hbs"@] },
        TypeEntryView { aliases: seq!["hs"@] , globs: seq!["*.hs"@, "*.lhs"@] },
    ]
}

/// Appends the same stretch of the table to `v`.
fn push_table_part_4(v: &mut Vec<TypeEntry>)
    ensures
        final(v).deep_view() == old(v).deep_view() + table_part_4(),
{
    v.push(entry(&["fsharp"], &["*.fs", "*.fsx", "*.fsi"]));
    v.push(entry(&["fut"], &["*.fut"]));
    v.push(entry(&["gap"], &["*.g", "*.gap", "*.gi", "*.gd", "*.tst"]));
    v.push(entry(&["gif"], &["*.gif"]));
    v.push(entry(&["gimp"], &["*.xcf"]));
    v.push(entry(&["glyphs"], &["*.glyphs"]));
    v.push(entry(&["glyphspkg"], &["*.glyph", "*.plist"]));
    v.push(entry(&["gn"], &["*.gn", "*.gni"]));
    v.push(entry(&["go"], &["*.go"]));
    v.push(entry(&["gprbuild"], &["*.gpr"]));
    v.push(entry(&["gradle"], &["*.gradle", "*.gradle.kts", "gradle.properties", "gradle-wrapper.*", "gradlew", "gradlew.bat"]));
    v.push(entry(&["graphql"], &["*.graphql", "*.graphqls"]));
    v.push(entry(&["groovy"], &["*.groovy", "*.gradle"]));
    v.push(entry(&["gzip"], &["*.gz", "*.tgz"]));
    v.push(entry(&["h"], &["*.h", "*.hh", "*.hpp"]));
    v.push(entry(&["haml"], &["*.haml"]));
    v.push(entry(&["hare"], &["*.ha"]));
    v.push(entry(&["haskell"], &["*.hs", "*.lhs", "*.cpphs", "*.c2hs", "*.hsc"]));
    v.push(entry(&["hbs"], &["*.hbs"]));
    v.push(entry(&["hs"], &["*.hs", "*.lhs"]));
    assert(v.deep_view() =~~= old(v).deep_view() + table_part_4());
}

/// One stretch of the built-in table, as specification data.
pub open spec fn table_part_5() -> Seq<TypeEntryView> {
    seq![
        TypeEntryView { aliases: seq!["html"@] , globs: seq!["*.htm"@, "*.html"@, "*.ejs"@] },
        TypeEntryView { aliases: seq!["hy"@] , globs: seq!["*.hy"@] },
        TypeEntryView { aliases: seq!["ics"@, "calendar"@] , globs: seq!["*.ics"@] },
        TypeEntryView { aliases: seq!["idris"@] , globs: seq!["*.idr"@, "*.lidr"@] },
        TypeEntryView { aliases: seq!["indd"@] , globs: seq!["*.indd"@, "*.indl"@, "*.indt"@, "*.indb"@] },
        TypeEntryView { aliases: seq!["iso"@] , globs: seq!["*.iso"@, "*.udf"@] },
        TypeEntryView { aliases: seq!["janet"@] , globs: seq!["*.janet"@] },
        TypeEntryView { aliases: seq!["jar"@] , globs: seq!["*.jar"@] },
        TypeEntryView { aliases: seq!["java"@] , globs: seq!["*.java"@, "*.jsp"@, "*.jspx"@, "*.properties"@] },
        TypeEntryView { aliases: seq!["jinja"@] , globs: seq!["*.j2"@, "*.jinja"@, "*.jinja2"@] },
        TypeEntryView { aliases: seq!["jl"@] , globs: seq!["*.jl"@] },
        TypeEntryView { aliases: seq!["jpg"@] , globs: seq!["*.jpg"@, "*.jpeg"@] },
        TypeEntryView { aliases: seq!["js"@] , globs: seq!["*.js"@, "*.jsx"@, "*.vue"@, "*.cjs"@, "*.mjs"@] },
        TypeEntryView { aliases: seq!["json"@] , globs: seq!["*.json"@, "composer.lock"@, "*.sarif"@] },
        TypeEntryView { aliases: seq!["jsonl"@] , globs: seq!["*.jsonl"@] },
        TypeEntryView { aliases: seq!["julia"@] , globs: seq!["*.jl"@] },
        TypeEntryView { aliases: seq!["jupyter"@] , globs: seq!["*.ipynb"@, "*.jpynb"@] },
        TypeEntryView { aliases: seq!["k"@] , globs: seq!["*.k"@] },
        TypeEntryView { aliases: seq!["kotlin"@] , globs: seq!["*.kt"@, "*.kts"@] },
        TypeEntryView { aliases: seq!["lean"@] , globs: seq!["*.lean"@] },
    ]
}

/// Appends the same stretch of the table to `v`.
fn push_table_part_5(v: &mut Vec<TypeEntry>)
    ensures
        final(v).deep_view() == old(v).deep_view() + table_part_5(),
{
    v.push(entry(&["html"], &["*.htm", "*.html", "*.ejs"]));
    v.push(entry(&["hy"], &["*.hy"]));
    v.push(entry(&["ics", "calendar"], &["*.ics"]));
    v.push(entry(&["idris"], &["*.idr", "*.lidr"]));
    v.push(entry(&["indd"], &["*.indd", "*.indl", "*.indt", "*.indb"]));
    v.push(entry(&["iso"], &["*.iso", "*.udf"]));
    v.push(entry(&["janet"], &["*.janet"]));
    v.push(entry(&["jar"], &["*.jar"]));
    v.push(entry(&["java"], &["*.java", "*.jsp", "*.jspx", "*.properties"]));
    v.push(entry(&["jinja"], &["*.j2", "*.jinja", "*.jinja2"]));
    v.push(entry(&["jl"], &["*.jl"]));
    v.push(entry(&["jpg"], &["*.jpg", "*.jpeg"]));
    v.push(entry(&["js"], &["*.js", "*.jsx", "*.vue", "*.cjs", "*.mjs"]));
    v.push(entry(&["json"], &["*.json", "composer.lock", "*.sarif"]));
    v.push(entry(&["jsonl"], &["*.jsonl"]));
    v.push(entry(&["julia"], &["*.jl"]));
    v.push(entry(&["jupyter"], &["*.ipynb", "*.jpynb"]));
    v.push(entry(&["k"], &["*.k"]));
    v.push(entry(&["kotlin"], &["*.kt", "*.kts"]));
    v.push(entry(&["lean"], &["*.lean"]));
    assert(v.deep_view() =~~= old(v).deep_view() + table_part_5());
}

/// One stretch of the built-in table, as specification data.
pub open spec fn table_part_6() -> Seq<TypeEntryView> {
    seq![
        TypeEntryView { aliases: seq!["less"@] , globs: seq!["*.less"@] },
        TypeEntryView { aliases: seq!["license"@] , globs: seq!["COPYING"@, "COPYING[.-]*"@, "COPYRIGHT"@, "COPYRIGHT[.-]*"@, "EULA"@, "EULA[.-]*"@, "licen[cs]e"@, "licen[cs]e.*"@, "LICEN[CS]E"@, "LICEN[CS]E[.-]*"@, "*[.-]LICEN[CS]E*"@, "NOTICE"@, "NOTICE[.-]*"@, "PATENTS"@, "PATENTS[.-]*"@, "UNLICEN[CS]E"@, "UNLICEN[CS]E[.-]*"@, "agpl[.-]*"@, "gpl[.-]*"@, "lgpl[.-]*"@, "AGPL-*[0-9]*"@, "APACHE-*[0-9]*"@, "BSD-*[0-9]*"@, "CC-BY-*"@, "GFDL-*[0-9]*"@, "GNU-*[0-9]*"@, "GPL-*[0-9]*"@, "LGPL-*[0-9]*"@, "MIT-*[0-9]*"@, "MPL-*[0-9]*"@, "OFL-*[0-9]*"@] },
        TypeEntryView { aliases: seq!["lilypond"@] , globs: seq!["*.ly"@, "*.ily"@] },
        TypeEntryView { aliases: seq!["lisp"@] , globs: seq!["*.el"@, "*.jl"@, "*.lisp"@, "*.lsp"@, "*.sc"@, "*.scm"@] },
        TypeEntryView { aliases: seq!["lock"@] , globs: seq!["*.lock"@, "package-lock.json"@] },
        TypeEntryView { aliases: seq!["log"@] , globs: seq!["*.log"@] },
        TypeEntryView { aliases: seq!["lua"@] , globs: seq!["*.lua"@] },
        TypeEntryView { aliases: seq!["lz4"@] , globs: seq!["*.lz4"@] },
        TypeEntryView { aliases: seq!["lzma"@] , globs: seq!["*.lzma"@] },
        TypeEntryView { aliases: seq!["m4"@] , globs: seq!["*.ac"@, "*.m4"@] },
        TypeEntryView { aliases: seq!["make"@] , globs: seq!["[Gg][Nn][Uu]makefile"@, "[Mm]akefile"@, "[Gg][Nn][Uu]makefile.am"@, "[Mm]akefile.am"@, "[Gg][Nn][Uu]makefile.in"@, "[Mm]akefile.in"@, "*.mk"@, "*.mak"@] },
        TypeEntryView { aliases: seq!["mako"@] , globs: seq!["*.mako"@, "*.mao"@] },
        TypeEntryView { aliases: seq!["man"@] , globs: seq!["*.[0-9lnpx]"@, "*.[0-9][cEFMmpSx]"@] },
        TypeEntryView { aliases: seq!["markdown"@, "md"@] , globs: seq!["*.markdown"@, "*.md"@, "*.mdown"@, "*.mdwn"@, "*.mkd"@, "*.mkdn"@, "*.mdx"@] },
        TypeEntryView { aliases: seq!["matlab"@] , globs: seq!["*.m"@] },
        TypeEntryView { aliases: seq!["meson"@] , globs: seq!["meson.build"@, "meson_options.txt"@, "meson.options"@] },
        TypeEntryView { aliases: seq!["minified"@] , globs: seq!["*.min.html"@, "*.min.css"@, "*.min.js"@] },
        TypeEntryView { aliases: seq!["mint"@] , globs: seq!["*.mint"@] },
        TypeEntryView { aliases: seq!["mk"@] , globs: seq!["mkfile"@] },
        TypeEntryView { aliases: seq!["ml"@] , globs: seq!["*.ml"@] },
    ]
}

/// Appends the same stretch of the table to `v`.
fn push_table_part_6(v: &mut Vec<TypeEntry>)
    ensures
        final(v).deep_view() == old(v).deep_view() + table_part_6(),
{
    v.push(entry(&["less"], &["*.less"]));
    v.push(entry(&["license"], &["COPYING", "COPYING[.-]*", "COPYRIGHT", "COPYRIGHT[.-]*", "EULA", "EULA[.-]*", "licen[cs]e", "licen[cs]e.*", "LICEN[CS]E", "LICEN[CS]E[.-]*", "*[.-]LICEN[CS]E*", "NOTICE", "NOTICE[.-]*", "PATENTS", "PATENTS[.-]*", "UNLICEN[CS]E", "UNLICEN[CS]E[.-]*", "agpl[.-]*", "gpl[.-]*", "lgpl[.-]*", "AGPL-*[0-9]*", "APACHE-*[0-9]*", "BSD-*[0-9]*", "CC-BY-*", "GFDL-*[0-9]*", "GNU-*[0-9]*", "GPL-*[0-9]*", "LGPL-*[0-9]*", "MIT-*[0-9]*", "MPL-*[0-9]*", "OFL-*[0-9]*"]));
    v.push(entry(&["lilypond"], &["*.ly", "*.ily"]));
    v.push(entry(&["lisp"], &["*.el", "*.jl", "*.lisp", "*.lsp", "*.sc", "*.scm"]));
    v.push(entry(&["lock"], &["*.lock", "package-lock.json"]));
    v.push(entry(&["log"], &["*.log"]));
    v.push(entry(&["lua"], &["*.lua"]));
    v.push(entry(&["lz4"], &["*.lz4"]));
    v.push(entry(&["lzma"], &["*.lzma"]));
    v.push(entry(&["m4"], &["*.ac", "*.m4"]));
    v.push(entry(&["make"], &["[Gg][Nn][Uu]makefile", "[Mm]akefile", "[Gg][Nn][Uu]makefile.am", "[Mm]akefile.am", "[Gg][Nn][Uu]makefile.in", "[Mm]akefile.in", "*.mk", "*.mak"]));
    v.push(entry(&["mako"], &["*.mako", "*.mao"]));
    v.push(entry(&["man"], &["*.[0-9lnpx]", "*.[0-9][cEFMmpSx]"]));
    v.push(entry(&["markdown", "md"], &["*.markdown", "*.md", "*.mdown", "*.mdwn", "*.mkd", "*.mkdn", "*.mdx"]));
    v.push(entry(&["matlab"], &["*.m"]));
    v.push(entry(&["meson"], &["meson.build", "meson_options.txt", "meson.options"]));
    v.push(entry(&["minified"], &["*.min.html", "*.min.css", "*.min.js"]));
    v.push(entry(&["mint"], &["*.mint"]));
    v.push(entry(&["mk"], &["mkfile"]));
    v.push(entry(&["ml"], &["*.ml"]));
    assert(v.deep_view() =~~= old(v).deep_view() + table_part_6());
}

/// One stretch of the built-in table, as specification data.
pub open spec fn table_part_7() -> Seq<TypeEntryView> {
    seq![
        TypeEntryView { aliases: seq!["motoko"@] , globs: seq!["*.mo"@] },
        TypeEntryView { aliases: seq!["mov"@] , globs: seq!["*.mov"@] },
        TypeEntryView { aliases: seq!["mp4"@] , globs: seq!["*.mp4"@] },
        TypeEntryView { aliases: seq!["msbuild"@] , globs: seq!["*.csproj"@, "*.fsproj"@, "*.vcxproj"@, "*.proj"@, "*.props"@, "*.targets"@, "*.sln"@] },
        TypeEntryView { aliases: seq!["msi"@] , globs: seq!["*.msi"@] },
        TypeEntryView { aliases: seq!["nim"@] , globs: seq!["*.nim"@, "*.nimf"@, "*.nimble"@, "*.nims"@] },
        TypeEntryView { aliases: seq!["nix"@] , globs: seq!["*.nix"@] },
        TypeEntryView { aliases: seq!["objc"@] , globs: seq!["*.h"@, "*.m"@] },
        TypeEntryView { aliases: seq!["objcpp"@] , globs: seq!["*.h"@, "*.mm"@] },
        TypeEntryView { aliases: seq!["ocaml"@] , globs: seq!["*.ml"@, "*.mli"@, "*.mll"@, "*.mly"@] },
        TypeEntryView { aliases: seq!["org"@] , globs: seq!["*.org"@, "*.org_archive"@] },
        TypeEntryView { aliases: seq!["otf"@] , globs: seq!["*.otf"@, "*.otc"@] },
        TypeEntryView { aliases: seq!["pants"@] , globs: seq!["BUILD"@] },
        TypeEntryView { aliases: seq!["pascal"@] , globs: seq!["*.pas"@, "*.dpr"@, "*.lpr"@, "*.pp"@, "*.inc"@] },
        TypeEntryView { aliases: seq!["pdf"@] , globs: seq!["*.pdf"@] },
        TypeEntryView { aliases: seq!["perl"@] , globs: seq!["*.perl"@, "*.pl"@, "*.PL"@, "*.plh"@, "*.plx"@, "*.pm"@, "*.t"@] },
        TypeEntryView { aliases: seq!["php"@] , globs: seq!["*.php"@, "*.php3"@, "*.php4"@, "*.php5"@, "*.php7"@, "*.php8"@, "*.pht"@, "*.phtml"@] },
        TypeEntryView { aliases: seq!["plist"@] , globs: seq!["*.plist"@] },
        TypeEntryView { aliases: seq!["png"@] , globs: seq!["*.png"@] },
        TypeEntryView { aliases: seq!["po"@] , globs: seq!["*.po"@] },
    ]
}

/// Appends the same stretch of the table to `v`.
fn push_table_part_7(v: &mut Vec<TypeEntry>)
    ensures
        final(v).deep_view() == old(v).deep_view() + table_part_7(),
{
    v.push(entry(&["motoko"], &["*.mo"]));
    v.push(entry(&["mov"], &["*.mov"]));
    v.push(entry(&["mp4"], &["*.mp4"]));
    v.push(entry(&["msbuild"], &["*.csproj", "*.fsproj", "*.vcxproj", "*.proj", "*.props", "*.targets", "*.sln"]));
    v.push(entry(&["msi"], &["*.msi"]));
    v.push(entry(&["nim"], &["*.nim", "*.nimf", "*.nimble", "*.nims"]));
    v.push(entry(&["nix"], &["*.nix"]));
    v.push(entry(&["objc"], &["*.h", "*.m"]));
    v.push(entry(&["objcpp"], &["*.h", "*.mm"]));
    v.push(entry(&["ocaml"], &["*.ml", "*.mli", "*.mll", "*.mly"]));
    v.push(entry(&["org"], &["*.org", "*.org_archive"]));
    v.push(entry(&["otf"], &["*.otf", "*.otc"]));
    v.push(entry(&["pants"], &["BUILD"]));
    v.push(entry(&["pascal"], &["*.pas", "*.dpr", "*.lpr", "*.pp", "*.inc"]));
    v.push(entry(&["pdf"], &["*.pdf"]));
    v.push(entry(&["perl"], &["*.perl", "*.pl", "*.PL", "*.plh", "*.plx", "*.pm", "*.t"]));
    v.push(entry(&["php"], &["*.php", "*.php3", "*.php4", "*.php5", "*.php7", "*.php8", "*.pht", "*.phtml"]));
    v.push(entry(&["plist"], &["*.plist"]));
    v.push(entry(&["png"], &["*.png"]));
    v.push(entry(&["po"], &["*.po"]));
    assert(v.deep_view() =~~= old(v).deep_view() + table_part_7());
}

/// One stretch of the built-in table, as specification data.
pub open spec fn table_part_8() -> Seq<TypeEntryView> {
    seq![
        TypeEntryView { aliases: seq!["pod"@] , globs: seq!["*.pod"@] },
        TypeEntryView { aliases: seq!["postscript"@] , globs: seq!["*.eps"@, "*.ps"@] },
        TypeEntryView { aliases: seq!["ppt"@] , globs: seq!["*.ppt"@, "*.pptx"@] },
        TypeEntryView { aliases: seq!["prolog"@] , globs: seq!["*.pl"@, "*.pro"@, "*.prolog"@, "*.P"@] },
        TypeEntryView { aliases: seq!["protobuf"@] , globs: seq!["*.proto"@] },
        TypeEntryView { aliases: seq!["ps"@] , globs: seq!["*.cdxml"@, "*.ps1"@, "*.ps1xml"@, "*.psd1"@, "*.psm1"@] },
        TypeEntryView { aliases: seq!["psd"@] , globs: seq!["*.psd"@] },
        TypeEntryView { aliases: seq!["puppet"@] , globs: seq!["*.epp"@, "*.erb"@, "*.pp"@, "*.rb"@] },
        TypeEntryView { aliases: seq!["purs"@] , globs: seq!["*.purs"@] },
        TypeEntryView { aliases: seq!["py"@, "python"@] , globs: seq!["*.py"@, "*.pyi"@] },
        TypeEntryView { aliases: seq!["qmake"@] , globs: seq!["*.pro"@, "*.pri"@, "*.prf"@] },
        TypeEntryView { aliases: seq!["qml"@] , globs: seq!["*.qml"@] },
        TypeEntryView { aliases: seq!["r"@] , globs: seq!["*.R"@, "*.r"@, "*.Rmd"@, "*.Rnw"@] },
        TypeEntryView { aliases: seq!["racket"@] , globs: seq!["*.rkt"@] },
        TypeEntryView { aliases: seq!["raku"@] , globs: seq!["*.raku"@, "*.rakumod"@, "*.rakudoc"@, "*.rakutest"@, "*.p6"@, "*.pl6"@, "*.pm6"@] },
        TypeEntryView { aliases: seq!["rar"@] , globs: seq!["*.rar"@] },
        TypeEntryView { aliases: seq!["rdoc"@] , globs: seq!["*.rdoc"@] },
        TypeEntryView { aliases: seq!["readme"@] , globs: seq!["README*"@, "*README"@] },
        TypeEntryView { aliases: seq!["reasonml"@] , globs: seq!["*.re"@, "*.rei"@] },
        TypeEntryView { aliases: seq!["red"@] , globs: seq!["*.r"@, "*.red"@, "*.reds"@] },
    ]
}

/// Appends the same stretch of the table to `v`.
fn push_table_part_8(v: &mut Vec<TypeEntry>)
    ensures
        final(v).deep_view() == old(v).deep_view() + table_part_8(),
{
    v.push(entry(&["pod"], &["*.pod"]));
    v.push(entry(&["postscript"], &["*.eps", "*.ps"]));
    v.push(entry(&["ppt"], &["*.ppt", "*.pptx"]));
    v.push(entry(&["prolog"], &["*.pl", "*.pro", "*.prolog", "*.P"]));
    v.push(entry(&["protobuf"], &["*.proto"]));
    v.push(entry(&["ps"], &["*.cdxml", "*.ps1", "*.ps1xml", "*.psd1", "*.psm1"]));
    v.push(entry(&["psd"], &["*.psd"]));
    v.push(entry(&["puppet"], &["*.epp", "*.erb", "*.pp", "*.rb"]));
    v.push(entry(&["purs"], &["*.purs"]));
    v.push(entry(&["py", "python"], &["*.py", "*.pyi"]));
    v.push(entry(&["qmake"], &["*.pro", "*.pri", "*.prf"]));
    v.push(entry(&["qml"], &["*.qml"]));
    v.push(entry(&["r"], &["*.R", "*.r", "*.Rmd", "*.Rnw"]));
    v.push(entry(&["racket"], &["*.rkt"]));
    v.push(entry(&["raku"], &["*.raku", "*.rakumod", "*.rakudoc", "*.rakutest", "*.p6", "*.pl6", "*.pm6"]));
    v.push(entry(&["rar"], &["*.rar"]));
    v.push(entry(&["rdoc"], &["*.rdoc"]));
    v.push(entry(&["readme"], &["README*", "*README"]));
    v.push(entry(&["reasonml"], &["*.re", "*.rei"]));
    v.push(entry(&["red"], &["*.r", "*.red", "*.reds"]));
    assert(v.deep_view() =~~= old(v).deep_view() + table_part_8());
}

/// One stretch of the built-in table, as specification data.
pub open spec fn table_part_9() -> Seq<TypeEntryView> {
    seq![
        TypeEntryView { aliases: seq!["rescript"@] , globs: seq!["*.res"@, "*.resi"@] },
        TypeEntryView { aliases: seq!["robot"@] , globs: seq!["*.robot"@] },
        TypeEntryView { aliases: seq!["rpm"@] , globs: seq!["*.rpm"@] },
        TypeEntryView { aliases: seq!["rst"@] , globs: seq!["*.rst"@] },
        TypeEntryView { aliases: seq!["rtf"@] , globs: seq!["*.rtf"@] },
        TypeEntryView { aliases: seq!["ruby"@] , globs: seq!["config.ru"@, "Gemfile"@, ".irbrc"@, "Rakefile"@, "*.gemspec"@, "*.rb"@, "*.rbw"@] },
        TypeEntryView { aliases: seq!["rust"@] , globs: seq!["*.rs"@] },
        TypeEntryView { aliases: seq!["sass"@] , globs: seq!["*.sass"@, "*.scss"@] },
        TypeEntryView { aliases: seq!["scala"@] , globs: seq!["*.scala"@, "*.sbt"@] },
        TypeEntryView { aliases: seq!["sh"@] , globs: seq![".login"@, ".logout"@, ".profile"@, "profile"@, ".bash_login"@, "bash_login"@, ".bash_logout"@, "bash_logout"@, ".bash_profile"@, "bash_profile"@, ".bashrc"@, "bashrc"@, "*.bashrc"@, ".cshrc"@, "*.cshrc"@, ".kshrc"@, "*.kshrc"@, ".tcshrc"@, ".zshenv"@, "zshenv"@, ".zlogin"@, "zlogin"@, ".zlogout"@, "zlogout"@, ".zprofile"@, "zprofile"@, ".zshrc"@, "zshrc"@, "*.bash"@, "*.csh"@, "*.ksh"@, "*.sh"@, "*.tcsh"@, "*.zsh"@] },
        TypeEntryView { aliases: seq!["slim"@] , globs: seq!["*.skim"@, "*.slim"@, "*.slime"@] },
        TypeEntryView { aliases: seq!["smarty"@] , globs: seq!["*.tpl"@] },
        TypeEntryView { aliases: seq!["sml"@] , globs: seq!["*.sml"@, "*.sig"@] },
        TypeEntryView { aliases: seq!["solidity"@] , globs: seq!["*.sol"@] },
        TypeEntryView { aliases: seq!["soy"@] , globs: seq!["*.soy"@] },
        TypeEntryView { aliases: seq!["spark"@] , globs: seq!["*.spark"@] },
        TypeEntryView { aliases: seq!["spec"@] , globs: seq!["*.spec"@] },
        TypeEntryView { aliases: seq!["sql"@] , globs: seq!["*.sql"@, "*.psql"@] },
        TypeEntryView { aliases: seq!["stylus"@] , globs: seq!["*.styl"@] },
        TypeEntryView { aliases: seq!["sv"@] , globs: seq!["*.v"@, "*.vg"@, "*.sv"@, "*.svh"@, "*.h"@] },
    ]
}

/// Appends the same stretch of the table to `v`.
fn push_table_part_9(v: &mut Vec<TypeEntry>)
    ensures
        final(v).deep_view() == old(v).deep_view() + table_part_9(),
{
    v.push(entry(&["rescript"], &["*.res", "*.resi"]));
    v.push(entry(&["robot"], &["*.robot"]));
    v.push(entry(&["rpm"], &["*.rpm"]));
    v.push(entry(&["rst"], &["*.rst"]));
    v.push(entry(&["rtf"], &["*.rtf"]));
    v.push(entry(&["ruby"], &["config.ru", "Gemfile", ".irbrc", "Rakefile", "*.gemspec", "*.rb", "*.rbw"]));
    v.push(entry(&["rust"], &["*.rs"]));
    v.push(entry(&["sass"], &["*.sass", "*.scss"]));
    v.push(entry(&["scala"], &["*.scala", "*.sbt"]));
    v.push(entry(&["sh"], &[".login", ".logout", ".profile", "profile", ".bash_login", "bash_login", ".bash_logout", "bash_logout", ".bash_profile", "bash_profile", ".bashrc", "bashrc", "*.bashrc", ".cshrc", "*.cshrc", ".kshrc", "*.kshrc", ".tcshrc", ".zshenv", "zshenv", ".zlogin", "zlogin", ".zlogout", "zlogout", ".zprofile", "zprofile", ".zshrc", "zshrc", "*.bash", "*.csh", "*.ksh", "*.sh", "*.tcsh", "*.zsh"]));
    v.push(entry(&["slim"], &["*.skim", "*.slim", "*.slime"]));
    v.push(entry(&["smarty"], &["*.tpl"]));
    v.push(entry(&["sml"], &["*.sml", "*.sig"]));
    v.push(entry(&["solidity"], &["*.sol"]));
    v.push(entry(&["soy"], &["*.soy"]));
    v.push(entry(&["spark"], &["*.spark"]));
    v.push(entry(&["spec"], &["*.spec"]));
    v.push(entry(&["sql"], &["*.sql", "*.psql"]));
    v.push(entry(&["stylus"], &["*.styl"]));
    v.push(entry(&["sv"], &["*.v", "*.vg", "*.sv", "*.svh", "*.h"]));
    assert(v.deep_view() =~~= old(v).deep_view() + table_part_9());
}

/// One stretch of the built-in table, as specification data.
pub open spec fn table_part_10() -> Seq<TypeEntryView> {
    seq![
        TypeEntryView { aliases: seq!["svg"@] , globs: seq!["*.svg"@] },
        TypeEntryView { aliases: seq!["swift"@] , globs: seq!["*.swift"@] },
        TypeEntryView { aliases: seq!["swig"@] , globs: seq!["*.def"@, "*.i"@] },
        TypeEntryView { aliases: seq!["systemd"@] , globs: seq!["*.automount"@, "*.conf"@, "*.device"@, "*.link"@, "*.mount"@, "*.path"@, "*.scope"@, "*.service"@, "*.slice"@, "*.socket"@, "*.swap"@, "*.target"@, "*.timer"@] },
        TypeEntryView { aliases: seq!["tar"@] , globs: seq!["*.tar"@, "*.tar.*"@, "*.tgz"@, "*.tbz2"@, "*.txz"@] },
        TypeEntryView { aliases: seq!["taskpaper"@] , globs: seq!["*.taskpaper"@] },
        TypeEntryView { aliases: seq!["tcl"@] , globs: seq!["*.tcl"@] },
        TypeEntryView { aliases: seq!["tex"@] , globs: seq!["*.tex"@, "*.ltx"@, "*.cls"@, "*.sty"@, "*.bib"@, "*.dtx"@, "*.ins"@] },
        TypeEntryView { aliases: seq!["texinfo"@] , globs: seq!["*.texi"@] },
        TypeEntryView { aliases: seq!["textile"@] , globs: seq!["*.textile"@] },
        TypeEntryView { aliases: seq!["tf"@] , globs: seq!["*.tf"@, "*.auto.tfvars"@, "terraform.tfvars"@, "*.tf.json"@, "*.auto.tfvars.json"@, "terraform.tfvars.json"@, "*.terraformrc"@, "terraform.rc"@, "*.tfrc"@, "*.terraform.lock.hcl"@] },
        TypeEntryView { aliases: seq!["thrift"@] , globs: seq!["*.thrift"@] },
        TypeEntryView { aliases: seq!["tiff"@] , globs: seq!["*.tiff"@] },
        TypeEntryView { aliases: seq!["toml"@] , globs: seq!["*.toml"@, "Cargo.lock"@] },
        TypeEntryView { aliases: seq!["ts"@, "typescript"@] , globs: seq!["*.ts"@, "*.tsx"@, "*.cts"@, "*.mts"@] },
        TypeEntryView { aliases: seq!["ttf"@] , globs: seq!["*.ttf"@, "*.ttc"@] },
        TypeEntryView { aliases: seq!["twig"@] , globs: seq!["*.twig"@] },
        TypeEntryView { aliases: seq!["txt"@] , globs: seq!["*.txt"@] },
        TypeEntryView { aliases: seq!["typoscript"@] , globs: seq!["*.typoscript"@, "*.ts"@] },
        TypeEntryView { aliases: seq!["ufo"@] , globs: seq!["*.designspace"@, "*.fea"@, "*.glif"@, "*.plist"@] },
    ]
}

/// Appends the same stretch of the table to `v`.
fn push_table_part_10(v: &mut Vec<TypeEntry>)
    ensures
        final(v).deep_view() == old(v).deep_view() + table_part_10(),
{
    v.push(entry(&["svg"], &["*.svg"]));
    v.push(entry(&["swift"], &["*.swift"]));
    v.push(entry(&["swig"], &["*.def", "*.i"]));
    v.push(entry(&["systemd"], &["*.automount", "*.conf", "*.device", "*.link", "*.mount", "*.path", "*.scope", "*.service", "*.slice", "*.socket", "*.swap", "*.target", "*.timer"]));
    v.push(entry(&["tar"], &["*.tar", "*.tar.*", "*.tgz", "*.tbz2", "*.txz"]));
    v.push(entry(&["taskpaper"], &["*.taskpaper"]));
    v.push(entry(&["tcl"], &["*.tcl"]));
    v.push(entry(&["tex"], &["*.tex", "*.ltx", "*.cls", "*.sty", "*.bib", "*.dtx", "*.ins"]));
    v.push(entry(&["texinfo"], &["*.texi"]));
    v.push(entry(&["textile"], &["*.textile"]));
    v.push(entry(&["tf"], &["*.tf", "*.auto.tfvars", "terraform.tfvars", "*.tf.json", "*.auto.tfvars.json", "terraform.tfvars.json", "*.terraformrc", "terraform.rc", "*.tfrc", "*.terraform.lock.hcl"]));
    v.push(entry(&["thrift"], &["*.thrift"]));
    v.push(entry(&["tiff"], &["*.tiff"]));
    v.push(entry(&["toml"], &["*.toml", "Cargo.lock"]));
    v.push(entry(&["ts", "typescript"], &["*.ts", "*.tsx", "*.cts", "*.mts"]));
    v.push(entry(&["ttf"], &["*.ttf", "*.ttc"]));
    v.push(entry(&["twig"], &["*.twig"]));
    v.push(entry(&["txt"], &["*.txt"]));
    v.push(entry(&["typoscript"], &["*.typoscript", "*.ts"]));
    v.push(entry(&["ufo"], &["*.designspace", "*.fea", "*.glif", "*.plist"]));
    assert(v.deep_view() =~~= old(v).deep_view() + table_part_10());
}

/// One stretch of the built-in table, as specification data.
pub open spec fn table_part_11() -> Seq<TypeEntryView> {
    seq![
        TypeEntryView { aliases: seq!["usd"@] , globs: seq!["*.usd"@, "*.usda"@, "*.usdc"@] },
        TypeEntryView { aliases: seq!["v"@] , globs: seq!["*.v"@, "*.vsh"@] },
        TypeEntryView { aliases: seq!["vala"@] , globs: seq!["*.vala"@] },
        TypeEntryView { aliases: seq!["vb"@] , globs: seq!["*.vb"@] },
        TypeEntryView { aliases: seq!["vcl"@] , globs: seq!["*.vcl"@] },
        TypeEntryView { aliases: seq!["verilog"@] , globs: seq!["*.v"@, "*.vh"@, "*.sv"@, "*.svh"@] },
        TypeEntryView { aliases: seq!["vhdl"@] , globs: seq!["*.vhd"@, "*.vhdl"@] },
        TypeEntryView { aliases: seq!["vim"@] , globs: seq!["*.vim"@, ".vimrc"@, ".gvimrc"@, "vimrc"@, "gvimrc"@, "_vimrc"@, "_gvimrc"@] },
        TypeEntryView { aliases: seq!["vimscript"@] , globs: seq!["*.vim"@, ".vimrc"@, ".gvimrc"@, "vimrc"@, "gvimrc"@, "_vimrc"@, "_gvimrc"@] },
        TypeEntryView { aliases: seq!["wav"@] , globs: seq!["*.wav"@] },
        TypeEntryView { aliases: seq!["webidl"@] , globs: seq!["*.idl"@, "*.webidl"@, "*.widl"@] },
        TypeEntryView { aliases: seq!["webp"@] , globs: seq!["*.webp"@] },
        TypeEntryView { aliases: seq!["wiki"@] , globs: seq!["*.mediawiki"@, "*.wiki"@] },
        TypeEntryView { aliases: seq!["woff"@] , globs: seq!["*.woff"@, "*.woff2"@] },
        TypeEntryView { aliases: seq!["xls"@] , globs: seq!["*.xls"@, "*.xlsx"@] },
        TypeEntryView { aliases: seq!["xml"@] , globs: seq!["*.xml"@, "*.xml.dist"@, "*.dtd"@, "*.xsl"@, "*.xslt"@, "*.xsd"@, "*.xjb"@, "*.rng"@, "*.sch"@, "*.xhtml"@] },
        TypeEntryView { aliases: seq!["xz"@] , globs: seq!["*.xz"@, "*.txz"@] },
        TypeEntryView { aliases: seq!["yacc"@] , globs: seq!["*.y"@] },
        TypeEntryView { aliases: seq!["yaml"@] , globs: seq!["*.yaml"@, "*.yml"@] },
        TypeEntryView { aliases: seq!["yang"@] , globs: seq!["*.yang"@] },
    ]
}

/// Appends the same stretch of the table to `v`.
fn push_table_part_11(v: &mut Vec<TypeEntry>)
    ensures
        final(v).deep_view() == old(v).deep_view() + table_part_11(),
{
    v.push(entry(&["usd"], &["*.usd", "*.usda", "*.usdc"]));
    v.push(entry(&["v"], &["*.v", "*.vsh"]));
    v.push(entry(&["vala"], &["*.vala"]));
    v.push(entry(&["vb"], &["*.vb"]));
    v.push(entry(&["vcl"], &["*.vcl"]));
    v.push(entry(&["verilog"], &["*.v", "*.vh", "*.sv", "*.svh"]));
    v.push(entry(&["vhdl"], &["*.vhd", "*.vhdl"]));
    v.push(entry(&["vim"], &["*.vim", ".vimrc", ".gvimrc", "vimrc", "gvimrc", "_vimrc", "_gvimrc"]));
    v.push(entry(&["vimscript"], &["*.vim", ".vimrc", ".gvimrc", "vimrc", "gvimrc", "_vimrc", "_gvimrc"]));
    v.push(entry(&["wav"], &["*.wav"]));
    v.push(entry(&["webidl"], &["*.idl", "*.webidl", "*.widl"]));
    v.push(entry(&["webp"], &["*.webp"]));
    v.push(entry(&["wiki"], &["*.mediawiki", "*.wiki"]));
    v.push(entry(&["woff"], &["*.woff", "*.woff2"]));
    v.push(entry(&["xls"], &["*.xls", "*.xlsx"]));
    v.push(entry(&["xml"], &["*.xml", "*.xml.dist", "*.dtd", "*.xsl", "*.xslt", "*.xsd", "*.xjb", "*.rng", "*.sch", "*.xhtml"]));
    v.push(entry(&["xz"], &["*.xz", "*.txz"]));
    v.push(entry(&["yacc"], &["*.y"]));
    v.push(entry(&["yaml"], &["*.yaml", "*.yml"]));
    v.push(entry(&["yang"], &["*.yang"]));
    assert(v.deep_view() =~~= old(v).deep_view() + table_part_11());
}

/// One stretch of the built-in table, as specification data.
pub open spec fn table_part_12() -> Seq<TypeEntryView> {
    seq![
        TypeEntryView { aliases: seq!["z"@] , globs: seq!["*.Z"@] },
        TypeEntryView { aliases: seq!["zig"@] , globs: seq!["*.zig"@] },
        TypeEntryView { aliases: seq!["zip"@] , globs: seq!["*.zip"@, "*.zipx"@, "*.z01"@, "*.zx01"@] },
        TypeEntryView { aliases: seq!["zsh"@] , globs: seq![".zshenv"@, "zshenv"@, ".zlogin"@, "zlogin"@, ".zlogout"@, "zlogout"@, ".zprofile"@, "zprofile"@, ".zshrc"@, "zshrc"@, "*.zsh"@] },
        TypeEntryView { aliases: seq!["zstd"@] , globs: seq!["*.zst"@, "*.zstd"@] },
    ]
}

/// Appends the same stretch of the table to `v`.
fn push_table_part_12(v: &mut Vec<TypeEntry>)
    ensures
        final(v).deep_view() == old(v).deep_view() + table_part_12(),
{
    v.push(entry(&["z"], &["*.Z"]));
    v.push(entry(&["zig"], &["*.zig"]));
    v.push(entry(&["zip"], &["*.zip", "*.zipx", "*.z01", "*.zx01"]));
    v.push(entry(&["zsh"], &[".zshenv", "zshenv", ".zlogin", "zlogin", ".zlogout", "zlogout", ".zprofile", "zprofile", ".zshrc", "zshrc", "*.zsh"]));
    v.push(entry(&["zstd"], &["*.zst", "*.zstd"]));
    assert(v.deep_view() =~~= old(v).deep_view() + table_part_12());
}

/// The whole built-in table, as specification data.
pub open spec fn default_table_view() -> Seq<TypeEntryView> {
    table_part_0() + table_part_1() + table_part_2() + table_part_3() + table_part_4() + table_part_5() + table_part_6() + table_part_7() + table_part_8() + table_part_9() + table_part_10() + table_part_11() + table_part_12()
}

/// Builds the built-in type table.
pub fn default_type_table() -> (t: Vec<TypeEntry>)
    ensures
        t.deep_view() == default_table_view(),
{
    let mut v: Vec<TypeEntry> = Vec::new();
    push_table_part_0(&mut v);
    push_table_part_1(&mut v);
    push_table_part_2(&mut v);
    push_table_part_3(&mut v);
    push_table_part_4(&mut v);
    push_table_part_5(&mut v);
    push_table_part_6(&mut v);
    push_table_part_7(&mut v);
    push_table_part_8(&mut v);
    push_table_part_9(&mut v);
    push_table_part_10(&mut v);
    push_table_part_11(&mut v);
    push_table_part_12(&mut v);
    assert(v.deep_view() =~~= default_table_view());
    v
}

/// Well-formedness extends over concatenation.
proof fn lemma_table_wf_add(a: Seq<TypeEntryView>, b: Seq<TypeEntryView>)
    requires
        table_wf(a),
        table_wf(b),
    ensures
        table_wf(a + b),
{
    assert forall|i: int| 0 <= i < (a + b).len() implies entry_wf(#[trigger] (a + b)[i]) by {
        if i < a.len() {
            assert((a + b)[i] == a[i]);
        } else {
            assert((a + b)[i] == b[i - a.len()]);
        }
    }
}

/// Every entry of the built-in table is well formed.
pub proof fn lemma_default_table_wf()
    ensures
        table_wf(default_table_view()),
{
    assert(table_wf(table_part_0()));
    assert(table_wf(table_part_1()));
    assert(table_wf(table_part_2()));
    assert(table_wf(table_part_3()));
    assert(table_wf(table_part_4()));
    assert(table_wf(table_part_5()));
    assert(table_wf(table_part_6()));
    assert(table_wf(table_part_7()));
    assert(table_wf(table_part_8()));
    assert(table_wf(table_part_9()));
    assert(table_wf(table_part_10()));
    assert(table_wf(table_part_11()));
    assert(table_wf(table_part_12()));
    lemma_table_wf_add(table_part_0(), table_part_1());
    lemma_table_wf_add(table_part_0() + table_part_1(), table_part_2());
    lemma_table_wf_add(table_part_0() + table_part_1() + table_part_2(), table_part_3());
    lemma_table_wf_add(table_part_0() + table_part_1() + table_part_2() + table_part_3(), table_part_4());
    lemma_table_wf_add(table_part_0() + table_part_1() + table_part_2() + table_part_3() + table_part_4(), table_part_5());
    lemma_table_wf_add(table_part_0() + table_part_1() + table_part_2() + table_part_3() + table_part_4() + table_part_5(), table_part_6());
    lemma_table_wf_add(table_part_0() + table_part_1() + table_part_2() + table_part_3() + table_part_4() + table_part_5() + table_part_6(), table_part_7());
    lemma_table_wf_add(table_part_0() + table_part_1() + table_part_2() + table_part_3() + table_part_4() + table_part_5() + table_part_6() + table_part_7(), table_part_8());
    lemma_table_wf_add(table_part_0() + table_part_1() + table_part_2() + table_part_3() + table_part_4() + table_part_5() + table_part_6() + table_part_7() + table_part_8(), table_part_9());
    lemma_table_wf_add(table_part_0() + table_part_1() + table_part_2() + table_part_3() + table_part_4() + table_part_5() + table_part_6() + table_part_7() + table_part_8() + table_part_9(), table_part_10());
    lemma_table_wf_add(table_part_0() + table_part_1() + table_part_2() + table_part_3() + table_part_4() + table_part_5() + table_part_6() + table_part_7() + table_part_8() + table_part_9() + table_part_10(), table_part_11());
    lemma_table_wf_add(table_part_0() + table_part_1() + table_part_2() + table_part_3() + table_part_4() + table_part_5() + table_part_6() + table_part_7() + table_part_8() + table_part_9() + table_part_10() + table_part_11(), table_part_12());
}

/// No alias of the list is the given name.
pub open spec fn no_alias_named(t: Seq<TypeEntryView>, n: Seq<char>) -> bool {
    forall|i: int, j: int|
        0 <= i < t.len() && 0 <= j < t[i].aliases.len() ==> #[trigger] t[i].aliases[j] != n
}

/// The property extends over concatenation.
proof fn lemma_no_alias_named_add(a: Seq<TypeEntryView>, b: Seq<TypeEntryView>, n: Seq<char>)
    requires
        no_alias_named(a, n),
        no_alias_named(b, n),
    ensures
        no_alias_named(a + b, n),
{
    assert forall|i: int, j: int|
        0 <= i < (a + b).len() && 0 <= j < (a + b)[i].aliases.len() implies #[trigger] (a
        + b)[i].aliases[j] != n by {
        if i < a.len() {
            assert((a + b)[i] == a[i]);
        } else {
            assert((a + b)[i] == b[i - a.len()]);
        }
    }
}

/// No alias of this stretch of the table is the select-everything word.
proof fn lemma_part_0_no_all()
    ensures
        no_alias_named(table_part_0(), "all"@),
{
    reveal_strlit("all");
    reveal_strlit("7z");
    reveal_strlit("aac");
    reveal_strlit("ada");
    reveal_strlit("agda");
    reveal_strlit("ai");
    reveal_strlit("aidl");
    reveal_strlit("alire");
    reveal_strlit("amake");
    reveal_strlit("apk");
    reveal_strlit("appleimg");
    reveal_strlit("asciidoc");
    reveal_strlit("asm");
    reveal_strlit("asp");
    reveal_strlit("ats");
    reveal_strlit("avi");
    reveal_strlit("avif");
    reveal_strlit("avro");
    reveal_strlit("awk");
    reveal_strlit("bat");
    reveal_strlit("batch");
    reveal_strlit("bazel");
    assert("7z"@.len() != "all"@.len());
    assert("7z"@ != "all"@);
    assert("aac"@[1] != "all"@[1]);
    assert("aac"@ != "all"@);
    assert("ada"@[1] != "all"@[1]);
    assert("ada"@ != "all"@);
    assert("agda"@.len() != "all"@.len());
    assert("agda"@ != "all"@);
    assert("ai"@.len() != "all"@.len());
    assert("ai"@ != "all"@);
    assert("aidl"@.len() != "all"@.len());
    assert("aidl"@ != "all"@);
    assert("alire"@.len() != "all"@.len());
    assert("alire"@ != "all"@);
    assert("amake"@.len() != "all"@.len());
    assert("amake"@ != "all"@);
    assert("apk"@[1] != "all"@[1]);
    assert("apk"@ != "all"@);
    assert("appleimg"@.len() != "all"@.len());
    assert("appleimg"@ != "all"@);
    assert("asciidoc"@.len() != "all"@.len());
    assert("asciidoc"@ != "all"@);
    assert("asm"@[1] != "all"@[1]);
    assert("asm"@ != "all"@);
    assert("asp"@[1] != "all"@[1]);
    assert("asp"@ != "all"@);
    assert("ats"@[1] != "all"@[1]);
    assert("ats"@ != "all"@);
    assert("avi"@[1] != "all"@[1]);
    assert("avi"@ != "all"@);
    assert("avif"@.len() != "all"@.len());
    assert("avif"@ != "all"@);
    assert("avro"@.len() != "all"@.len());
    assert("avro"@ != "all"@);
    assert("awk"@[1] != "all"@[1]);
    assert("awk"@ != "all"@);
    assert("bat"@[0] != "all"@[0]);
    assert("bat"@ != "all"@);
    assert("batch"@.len() != "all"@.len());
    assert("batch"@ != "all"@);
    assert("bazel"@.len() != "all"@.len());
    assert("bazel"@ != "all"@);

}

/// No alias of this stretch of the table is the select-everything word.
proof fn lemma_part_1_no_all()
    ensures
        no_alias_named(table_part_1(), "all"@),
{
    reveal_strlit("all");
    reveal_strlit("bitbake");
    reveal_strlit("bmp");
    reveal_strlit("brotli");
    reveal_strlit("buildstream");
    reveal_strlit("bzip2");
    reveal_strlit("c");
    reveal_strlit("cabal");
    reveal_strlit("candid");
    reveal_strlit("carp");
    reveal_strlit("cbor");
    reveal_strlit("ceylon");
    reveal_strlit("clojure");
    reveal_strlit("cmake");
    reveal_strlit("cmd");
    reveal_strlit("cml");
    reveal_strlit("coffeescript");
    reveal_strlit("config");
    reveal_strlit("coq");
    reveal_strlit("cpp");
    reveal_strlit("creole");
    assert("bitbake"@.len() != "all"@.len());
    assert("bitbake"@ != "all"@);
    assert("bmp"@[0] != "all"@[0]);
    assert("bmp"@ != "all"@);
    assert("brotli"@.len() != "all"@.len());
    assert("brotli"@ != "all"@);
    assert("buildstream"@.len() != "all"@.len());
    assert("buildstream"@ != "all"@);
    assert("bzip2"@.len() != "all"@.len());
    assert("bzip2"@ != "all"@);
    assert("c"@.len() != "all"@.len());
    assert("c"@ != "all"@);
    assert("cabal"@.len() != "all"@.len());
    assert("cabal"@ != "all"@);
    assert("candid"@.len() != "all"@.len());
    assert("candid"@ != "all"@);
    assert("carp"@.len() != "all"@.len());
    assert("carp"@ != "all"@);
    assert("cbor"@.len() != "all"@.len());
    assert("cbor"@ != "all"@);
    assert("ceylon"@.len() != "all"@.len());
    assert("ceylon"@ != "all"@);
    assert("clojure"@.len() != "all"@.len());
    assert("clojure"@ != "all"@);
    assert("cmake"@.len() != "all"@.len());
    assert("cmake"@ != "all"@);
    assert("cmd"@[0] != "all"@[0]);
    assert("cmd"@ != "all"@);
    assert("cml"@[0] != "all"@[0]);
    assert("cml"@ != "all"@);
    assert("coffeescript"@.len() != "all"@.len());
    assert("coffeescript"@ != "all"@);
    assert("config"@.len() != "all"@.len());
    assert("config"@ != "all"@);
    assert("coq"@[0] != "all"@[0]);
    assert("coq"@ != "all"@);
    assert("cpp"@[0] != "all"@[0]);
    assert("cpp"@ != "all"@);
    assert("creole"@.len() != "all"@.len());
    assert("creole"@ != "all"@);

}

/// No alias of this stretch of the table is the select-everything word.
proof fn lemma_part_2_no_all()
    ensures
        no_alias_named(table_part_2(), "all"@),
{
    reveal_strlit("all");
    reveal_strlit("crystal");
    reveal_strlit("cs");
    reveal_strlit("csharp");
    reveal_strlit("cshtml");
    reveal_strlit("csproj");
    reveal_strlit("css");
    reveal_strlit("csv");
    reveal_strlit("cuda");
    reveal_strlit("cython");
    reveal_strlit("d");
    reveal_strlit("dart");
    reveal_strlit("deb");
    reveal_strlit("designspace");
    reveal_strlit("devicetree");
    reveal_strlit("dhall");
    reveal_strlit("diff");
    reveal_strlit("dita");
    reveal_strlit("dll");
    reveal_strlit("doc");
    reveal_strlit("docker");
    assert("crystal"@.len() != "all"@.len());
    assert("crystal"@ != "all"@);
    assert("cs"@.len() != "all"@.len());
    assert("cs"@ != "all"@);
    assert("csharp"@.len() != "all"@.len());
    assert("csharp"@ != "all"@);
    assert("cshtml"@.len() != "all"@.len());
    assert("cshtml"@ != "all"@);
    assert("csproj"@.len() != "all"@.len());
    assert("csproj"@ != "all"@);
    assert("css"@[0] != "all"@[0]);
    assert("css"@ != "all"@);
    assert("csv"@[0] != "all"@[0]);
    assert("csv"@ != "all"@);
    assert("cuda"@.len() != "all"@.len());
    assert("cuda"@ != "all"@);
    assert("cython"@.len() != "all"@.len());
    assert("cython"@ != "all"@);
    assert("d"@.len() != "all"@.len());
    assert("d"@ != "all"@);
    assert("dart"@.len() != "all"@.len());
    assert("dart"@ != "all"@);
    assert("deb"@[0] != "all"@[0]);
    assert("deb"@ != "all"@);
    assert("designspace"@.len() != "all"@.len());
    assert("designspace"@ != "all"@);
    assert("devicetree"@.len() != "all"@.len());
    assert("devicetree"@ != "all"@);
    assert("dhall"@.len() != "all"@.len());
    assert("dhall"@ != "all"@);
    assert("diff"@.len() != "all"@.len());
    assert("diff"@ != "all"@);
    assert("dita"@.len() != "all"@.len());
    assert("dita"@ != "all"@);
    assert("dll"@[0] != "all"@[0]);
    assert("dll"@ != "all"@);
    assert("doc"@[0] != "all"@[0]);
    assert("doc"@ != "all"@);
    assert("docker"@.len() != "all"@.len());
    assert("docker"@ != "all"@);

}

/// No alias of this stretch of the table is the select-everything word.
proof fn lemma_part_3_no_all()
    ensures
        no_alias_named(table_part_3(), "all"@),
{
    reveal_strlit("all");
    reveal_strlit("dockercompose");
    reveal_strlit("dts");
    reveal_strlit("dvc");
    reveal_strlit("ebuild");
    reveal_strlit("edn");
    reveal_strlit("elisp");
    reveal_strlit("elixir");
    reveal_strlit("elm");
    reveal_strlit("epub");
    reveal_strlit("erb");
    reveal_strlit("erlang");
    reveal_strlit("exe");
    reveal_strlit("fea");
    reveal_strlit("fennel");
    reveal_strlit("fidl");
    reveal_strlit("fish");
    reveal_strlit("flac");
    reveal_strlit("flatbuffers");
    reveal_strlit("font");
    reveal_strlit("fortran");
    assert("dockercompose"@.len() != "all"@.len());
    assert("dockercompose"@ != "all"@);
    assert("dts"@[0] != "all"@[0]);
    assert("dts"@ != "all"@);
    assert("dvc"@[0] != "all"@[0]);
    assert("dvc"@ != "all"@);
    assert("ebuild"@.len() != "all"@.len());
    assert("ebuild"@ != "all"@);
    assert("edn"@[0] != "all"@[0]);
    assert("edn"@ != "all"@);
    assert("elisp"@.len() != "all"@.len());
    assert("elisp"@ != "all"@);
    assert("elixir"@.len() != "all"@.len());
    assert("elixir"@ != "all"@);
    assert("elm"@[0] != "all"@[0]);
    assert("elm"@ != "all"@);
    assert("epub"@.len() != "all"@.len());
    assert("epub"@ != "all"@);
    assert("erb"@[0] != "all"@[0]);
    assert("erb"@ != "all"@);
    assert("erlang"@.len() != "all"@.len());
    assert("erlang"@ != "all"@);
    assert("exe"@[0] != "all"@[0]);
    assert("exe"@ != "all"@);
    assert("fea"@[0] != "all"@[0]);
    assert("fea"@ != "all"@);
    assert("fennel"@.len() != "all"@.len());
    assert("fennel"@ != "all"@);
    assert("fidl"@.len() != "all"@.len());
    assert("fidl"@ != "all"@);
    assert("fish"@.len() != "all"@.len());
    assert("fish"@ != "all"@);
    assert("flac"@.len() != "all"@.len());
    assert("flac"@ != "all"@);
    assert("flatbuffers"@.len() != "all"@.len());
    assert("flatbuffers"@ != "all"@);
    assert("font"@.len() != "all"@.len());
    assert("font"@ != "all"@);
    assert("fortran"@.len() != "all"@.len());
    assert("fortran"@ != "all"@);

}

/// No alias of this stretch of the table is the select-everything word.
proof fn lemma_part_4_no_all()
    ensures
        no_alias_named(table_part_4(), "all"@),
{
    reveal_strlit("all");
    reveal_strlit("fsharp");
    reveal_strlit("fut");
    reveal_strlit("gap");
    reveal_strlit("gif");
    reveal_strlit("gimp");
    reveal_strlit("glyphs");
    reveal_strlit("glyphspkg");
    reveal_strlit("gn");
    reveal_strlit("go");
    reveal_strlit("gprbuild");
    reveal_strlit("gradle");
    reveal_strlit("graphql");
    reveal_strlit("groovy");
    reveal_strlit("gzip");
    reveal_strlit("h");
    reveal_strlit("haml");
    reveal_strlit("hare");
    reveal_strlit("haskell");
    reveal_strlit("hbs");
    reveal_strlit("hs");
    assert("fsharp"@.len() != "all"@.len());
    assert("fsharp"@ != "all"@);
    assert("fut"@[0] != "all"@[0]);
    assert("fut"@ != "all"@);
    assert("gap"@[0] != "all"@[0]);
    assert("gap"@ != "all"@);
    assert("gif"@[0] != "all"@[0]);
    assert("gif"@ != "all"@);
    assert("gimp"@.len() != "all"@.len());
    assert("gimp"@ != "all"@);
    assert("glyphs"@.len() != "all"@.len());
    assert("glyphs"@ != "all"@);
    assert("glyphspkg"@.len() != "all"@.len());
    assert("glyphspkg"@ != "all"@);
    assert("gn"@.len() != "all"@.len());
    assert("gn"@ != "all"@);
    assert("go"@.len() != "all"@.len());
    assert("go"@ != "all"@);
    assert("gprbuild"@.len() != "all"@.len());
    assert("gprbuild"@ != "all"@);
    assert("gradle"@.len() != "all"@.len());
    assert("gradle"@ != "all"@);
    assert("graphql"@.len() != "all"@.len());
    assert("graphql"@ != "all"@);
    assert("groovy"@.len() != "all"@.len());
    assert("groovy"@ != "all"@);
    assert("gzip"@.len() != "all"@.len());
    assert("gzip"@ != "all"@);
    assert("h"@.len() != "all"@.len());
    assert("h"@ != "all"@);
    assert("haml"@.len() != "all"@.len());
    assert("haml"@ != "all"@);
    assert("hare"@.len() != "all"@.len());
    assert("hare"@ != "all"@);
    assert("haskell"@.len() != "all"@.len());
    assert("haskell"@ != "all"@);
    assert("hbs"@[0] != "all"@[0]);
    assert("hbs"@ != "all"@);
    assert("hs"@.len() != "all"@.len());
    assert("hs"@ != "all"@);

}

/// No alias of this stretch of the table is the select-everything word.
proof fn lemma_part_5_no_all()
    ensures
        no_alias_named(table_part_5(), "all"@),
{
    reveal_strlit("all");
    reveal_strlit("calendar");
    reveal_strlit("html");
    reveal_strlit("hy");
    reveal_strlit("ics");
    reveal_strlit("idris");
    reveal_strlit("indd");
    reveal_strlit("iso");
    reveal_strlit("janet");
    reveal_strlit("jar");
    reveal_strlit("java");
    reveal_strlit("jinja");
    reveal_strlit("jl");
    reveal_strlit("jpg");
    reveal_strlit("js");
    reveal_strlit("json");
    reveal_strlit("jsonl");
    reveal_strlit("julia");
    reveal_strlit("jupyter");
    reveal_strlit("k");
    reveal_strlit("kotlin");
    reveal_strlit("lean");
    assert("calendar"@.len() != "all"@.len());
    assert("calendar"@ != "all"@);
    assert("html"@.len() != "all"@.len());
    assert("html"@ != "all"@);
    assert("hy"@.len() != "all"@.len());
    assert("hy"@ != "all"@);
    assert("ics"@[0] != "all"@[0]);
    assert("ics"@ != "all"@);
    assert("idris"@.len() != "all"@.len());
    assert("idris"@ != "all"@);
    assert("indd"@.len() != "all"@.len());
    assert("indd"@ != "all"@);
    assert("iso"@[0] != "all"@[0]);
    assert("iso"@ != "all"@);
    assert("janet"@.len() != "all"@.len());
    assert("janet"@ != "all"@);
    assert("jar"@[0] != "all"@[0]);
    assert("jar"@ != "all"@);
    assert("java"@.len() != "all"@.len());
    assert("java"@ != "all"@);
    assert("jinja"@.len() != "all"@.len());
    assert("jinja"@ != "all"@);
    assert("jl"@.len() != "all"@.len());
    assert("jl"@ != "all"@);
    assert("jpg"@[0] != "all"@[0]);
    assert("jpg"@ != "all"@);
    assert("js"@.len() != "all"@.len());
    assert("js"@ != "all"@);
    assert("json"@.len() != "all"@.len());
    assert("json"@ != "all"@);
    assert("jsonl"@.len() != "all"@.len());
    assert("jsonl"@ != "all"@);
    assert("julia"@.len() != "all"@.len());
    assert("julia"@ != "all"@);
    assert("jupyter"@.len() != "all"@.len());
    assert("jupyter"@ != "all"@);
    assert("k"@.len() != "all"@.len());
    assert("k"@ != "all"@);
    assert("kotlin"@.len() != "all"@.len());
    assert("kotlin"@ != "all"@);
    assert("lean"@.len() != "all"@.len());
    assert("lean"@ != "all"@);

}

/// No alias of this stretch of the table is the select-everything word.
proof fn lemma_part_6_no_all()
    ensures
        no_alias_named(table_part_6(), "all"@),
{
    reveal_strlit("all");
    reveal_strlit("less");
    reveal_strlit("license");
    reveal_strlit("lilypond");
    reveal_strlit("lisp");
    reveal_strlit("lock");
    reveal_strlit("log");
    reveal_strlit("lua");
    reveal_strlit("lz4");
    reveal_strlit("lzma");
    reveal_strlit("m4");
    reveal_strlit("make");
    reveal_strlit("mako");
    reveal_strlit("man");
    reveal_strlit("markdown");
    reveal_strlit("matlab");
    reveal_strlit("md");
    reveal_strlit("meson");
    reveal_strlit("minified");
    reveal_strlit("mint");
    reveal_strlit("mk");
    reveal_strlit("ml");
    assert("less"@.len() != "all"@.len());
    assert("less"@ != "all"@);
    assert("license"@.len() != "all"@.len());
    assert("license"@ != "all"@);
    assert("lilypond"@.len() != "all"@.len());
    assert("lilypond"@ != "all"@);
    assert("lisp"@.len() != "all"@.len());
    assert("lisp"@ != "all"@);
    assert("lock"@.len() != "all"@.len());
    assert("lock"@ != "all"@);
    assert("log"@[0] != "all"@[0]);
    assert("log"@ != "all"@);
    assert("lua"@[0] != "all"@[0]);
    assert("lua"@ != "all"@);
    assert("lz4"@[0] != "all"@[0]);
    assert("lz4"@ != "all"@);
    assert("lzma"@.len() != "all"@.len());
    assert("lzma"@ != "all"@);
    assert("m4"@.len() != "all"@.len());
    assert("m4"@ != "all"@);
    assert("make"@.len() != "all"@.len());
    assert("make"@ != "all"@);
    assert("mako"@.len() != "all"@.len());
    assert("mako"@ != "all"@);
    assert("man"@[0] != "all"@[0]);
    assert("man"@ != "all"@);
    assert("markdown"@.len() != "all"@.len());
    assert("markdown"@ != "all"@);
    assert("matlab"@.len() != "all"@.len());
    assert("matlab"@ != "all"@);
    assert("md"@.len() != "all"@.len());
    assert("md"@ != "all"@);
    assert("meson"@.len() != "all"@.len());
    assert("meson"@ != "all"@);
    assert("minified"@.len() != "all"@.len());
    assert("minified"@ != "all"@);
    assert("mint"@.len() != "all"@.len());
    assert("mint"@ != "all"@);
    assert("mk"@.len() != "all"@.len());
    assert("mk"@ != "all"@);
    assert("ml"@.len() != "all"@.len());
    assert("ml"@ != "all"@);

}

/// No alias of this stretch of the table is the select-everything word.
proof fn lemma_part_7_no_all()
    ensures
        no_alias_named(table_part_7(), "all"@),
{
    reveal_strlit("all");
    reveal_strlit("motoko");
    reveal_strlit("mov");
    reveal_strlit("mp4");
    reveal_strlit("msbuild");
    reveal_strlit("msi");
    reveal_strlit("nim");
    reveal_strlit("nix");
    reveal_strlit("objc");
    reveal_strlit("objcpp");
    reveal_strlit("ocaml");
    reveal_strlit("org");
    reveal_strlit("otf");
    reveal_strlit("pants");
    reveal_strlit("pascal");
    reveal_strlit("pdf");
    reveal_strlit("perl");
    reveal_strlit("php");
    reveal_strlit("plist");
    reveal_strlit("png");
    reveal_strlit("po");
    assert("motoko"@.len() != "all"@.len());
    assert("motoko"@ != "all"@);
    assert("mov"@[0] != "all"@[0]);
    assert("mov"@ != "all"@);
    assert("mp4"@[0] != "all"@[0]);
    assert("mp4"@ != "all"@);
    assert("msbuild"@.len() != "all"@.len());
    assert("msbuild"@ != "all"@);
    assert("msi"@[0] != "all"@[0]);
    assert("msi"@ != "all"@);
    assert("nim"@[0] != "all"@[0]);
    assert("nim"@ != "all"@);
    assert("nix"@[0] != "all"@[0]);
    assert("nix"@ != "all"@);
    assert("objc"@.len() != "all"@.len());
    assert("objc"@ != "all"@);
    assert("objcpp"@.len() != "all"@.len());
    assert("objcpp"@ != "all"@);
    assert("ocaml"@.len() != "all"@.len());
    assert("ocaml"@ != "all"@);
    assert("org"@[0] != "all"@[0]);
    assert("org"@ != "all"@);
    assert("otf"@[0] != "all"@[0]);
    assert("otf"@ != "all"@);
    assert("pants"@.len() != "all"@.len());
    assert("pants"@ != "all"@);
    assert("pascal"@.len() != "all"@.len());
    assert("pascal"@ != "all"@);
    assert("pdf"@[0] != "all"@[0]);
    assert("pdf"@ != "all"@);
    assert("perl"@.len() != "all"@.len());
    assert("perl"@ != "all"@);
    assert("php"@[0] != "all"@[0]);
    assert("php"@ != "all"@);
    assert("plist"@.len() != "all"@.len());
    assert("plist"@ != "all"@);
    assert("png"@[0] != "all"@[0]);
    assert("png"@ != "all"@);
    assert("po"@.len() != "all"@.len());
    assert("po"@ != "all"@);

}

/// No alias of this stretch of the table is the select-everything word.
proof fn lemma_part_8_no_all()
    ensures
        no_alias_named(table_part_8(), "all"@),
{
    reveal_strlit("all");
    reveal_strlit("pod");
    reveal_strlit("postscript");
    reveal_strlit("ppt");
    reveal_strlit("prolog");
    reveal_strlit("protobuf");
    reveal_strlit("ps");
    reveal_strlit("psd");
    reveal_strlit("puppet");
    reveal_strlit("purs");
    reveal_strlit("py");
    reveal_strlit("python");
    reveal_strlit("qmake");
    reveal_strlit("qml");
    reveal_strlit("r");
    reveal_strlit("racket");
    reveal_strlit("raku");
    reveal_strlit("rar");
    reveal_strlit("rdoc");
    reveal_strlit("readme");
    reveal_strlit("reasonml");
    reveal_strlit("red");
    assert("pod"@[0] != "all"@[0]);
    assert("pod"@ != "all"@);
    assert("postscript"@.len() != "all"@.len());
    assert("postscript"@ != "all"@);
    assert("ppt"@[0] != "all"@[0]);
    assert("ppt"@ != "all"@);
    assert("prolog"@.len() != "all"@.len());
    assert("prolog"@ != "all"@);
    assert("protobuf"@.len() != "all"@.len());
    assert("protobuf"@ != "all"@);
    assert("ps"@.len() != "all"@.len());
    assert("ps"@ != "all"@);
    assert("psd"@[0] != "all"@[0]);
    assert("psd"@ != "all"@);
    assert("puppet"@.len() != "all"@.len());
    assert("puppet"@ != "all"@);
    assert("purs"@.len() != "all"@.len());
    assert("purs"@ != "all"@);
    assert("py"@.len() != "all"@.len());
    assert("py"@ != "all"@);
    assert("python"@.len() != "all"@.len());
    assert("python"@ != "all"@);
    assert("qmake"@.len() != "all"@.len());
    assert("qmake"@ != "all"@);
    assert("qml"@[0] != "all"@[0]);
    assert("qml"@ != "all"@);
    assert("r"@.len() != "all"@.len());
    assert("r"@ != "all"@);
    assert("racket"@.len() != "all"@.len());
    assert("racket"@ != "all"@);
    assert("raku"@.len() != "all"@.len());
    assert("raku"@ != "all"@);
    assert("rar"@[0] != "all"@[0]);
    assert("rar"@ != "all"@);
    assert("rdoc"@.len() != "all"@.len());
    assert("rdoc"@ != "all"@);
    assert("readme"@.len() != "all"@.len());
    assert("readme"@ != "all"@);
    assert("reasonml"@.len() != "all"@.len());
    assert("reasonml"@ != "all"@);
    assert("red"@[0] != "all"@[0]);
    assert("red"@ != "all"@);

}

/// No alias of this stretch of the table is the select-everything word.
proof fn lemma_part_9_no_all()
    ensures
        no_alias_named(table_part_9(), "all"@),
{
    reveal_strlit("all");
    reveal_strlit("rescript");
    reveal_strlit("robot");
    reveal_strlit("rpm");
    reveal_strlit("rst");
    reveal_strlit("rtf");
    reveal_strlit("ruby");
    reveal_strlit("rust");
    reveal_strlit("sass");
    reveal_strlit("scala");
    reveal_strlit("sh");
    reveal_strlit("slim");
    reveal_strlit("smarty");
    reveal_strlit("sml");
    reveal_strlit("solidity");
    reveal_strlit("soy");
    reveal_strlit("spark");
    reveal_strlit("spec");
    reveal_strlit("sql");
    reveal_strlit("stylus");
    reveal_strlit("sv");
    assert("rescript"@.len() != "all"@.len());
    assert("rescript"@ != "all"@);
    assert("robot"@.len() != "all"@.len());
    assert("robot"@ != "all"@);
    assert("rpm"@[0] != "all"@[0]);
    assert("rpm"@ != "all"@);
    assert("rst"@[0] != "all"@[0]);
    assert("rst"@ != "all"@);
    assert("rtf"@[0] != "all"@[0]);
    assert("rtf"@ != "all"@);
    assert("ruby"@.len() != "all"@.len());
    assert("ruby"@ != "all"@);
    assert("rust"@.len() != "all"@.len());
    assert("rust"@ != "all"@);
    assert("sass"@.len() != "all"@.len());
    assert("sass"@ != "all"@);
    assert("scala"@.len() != "all"@.len());
    assert("scala"@ != "all"@);
    assert("sh"@.len() != "all"@.len());
    assert("sh"@ != "all"@);
    assert("slim"@.len() != "all"@.len());
    assert("slim"@ != "all"@);
    assert("smarty"@.len() != "all"@.len());
    assert("smarty"@ != "all"@);
    assert("sml"@[0] != "all"@[0]);
    assert("sml"@ != "all"@);
    assert("solidity"@.len() != "all"@.len());
    assert("solidity"@ != "all"@);
    assert("soy"@[0] != "all"@[0]);
    assert("soy"@ != "all"@);
    assert("spark"@.len() != "all"@.len());
    assert("spark"@ != "all"@);
    assert("spec"@.len() != "all"@.len());
    assert("spec"@ != "all"@);
    assert("sql"@[0] != "all"@[0]);
    assert("sql"@ != "all"@);
    assert("stylus"@.len() != "all"@.len());
    assert("stylus"@ != "all"@);
    assert("sv"@.len() != "all"@.len());
    assert("sv"@ != "all"@);

}

/// No alias of this stretch of the table is the select-everything word.
proof fn lemma_part_10_no_all()
    ensures
        no_alias_named(table_part_10(), "all"@),
{
    reveal_strlit("all");
    reveal_strlit("svg");
    reveal_strlit("swift");
    reveal_strlit("swig");
    reveal_strlit("systemd");
    reveal_strlit("tar");
    reveal_strlit("taskpaper");
    reveal_strlit("tcl");
    reveal_strlit("tex");
    reveal_strlit("texinfo");
    reveal_strlit("textile");
    reveal_strlit("tf");
    reveal_strlit("thrift");
    reveal_strlit("tiff");
    reveal_strlit("toml");
    reveal_strlit("ts");
    reveal_strlit("ttf");
    reveal_strlit("twig");
    reveal_strlit("txt");
    reveal_strlit("typescript");
    reveal_strlit("typoscript");
    reveal_strlit("ufo");
    assert("svg"@[0] != "all"@[0]);
    assert("svg"@ != "all"@);
    assert("swift"@.len() != "all"@.len());
    assert("swift"@ != "all"@);
    assert("swig"@.len() != "all"@.len());
    assert("swig"@ != "all"@);
    assert("systemd"@.len() != "all"@.len());
    assert("systemd"@ != "all"@);
    assert("tar"@[0] != "all"@[0]);
    assert("tar"@ != "all"@);
    assert("taskpaper"@.len() != "all"@.len());
    assert("taskpaper"@ != "all"@);
    assert("tcl"@[0] != "all"@[0]);
    assert("tcl"@ != "all"@);
    assert("tex"@[0] != "all"@[0]);
    assert("tex"@ != "all"@);
    assert("texinfo"@.len() != "all"@.len());
    assert("texinfo"@ != "all"@);
    assert("textile"@.len() != "all"@.len());
    assert("textile"@ != "all"@);
    assert("tf"@.len() != "all"@.len());
    assert("tf"@ != "all"@);
    assert("thrift"@.len() != "all"@.len());
    assert("thrift"@ != "all"@);
    assert("tiff"@.len() != "all"@.len());
    assert("tiff"@ != "all"@);
    assert("toml"@.len() != "all"@.len());
    assert("toml"@ != "all"@);
    assert("ts"@.len() != "all"@.len());
    assert("ts"@ != "all"@);
    assert("ttf"@[0] != "all"@[0]);
    assert("ttf"@ != "all"@);
    assert("twig"@.len() != "all"@.len());
    assert("twig"@ != "all"@);
    assert("txt"@[0] != "all"@[0]);
    assert("txt"@ != "all"@);
    assert("typescript"@.len() != "all"@.len());
    assert("typescript"@ != "all"@);
    assert("typoscript"@.len() != "all"@.len());
    assert("typoscript"@ != "all"@);
    assert("ufo"@[0] != "all"@[0]);
    assert("ufo"@ != "all"@);

}

/// No alias of this stretch of the table is the select-everything word.
proof fn lemma_part_11_no_all()
    ensures
        no_alias_named(table_part_11(), "all"@),
{
    reveal_strlit("all");
    reveal_strlit("usd");
    reveal_strlit("v");
    reveal_strlit("vala");
    reveal_strlit("vb");
    reveal_strlit("vcl");
    reveal_strlit("verilog");
    reveal_strlit("vhdl");
    reveal_strlit("vim");
    reveal_strlit("vimscript");
    reveal_strlit("wav");
    reveal_strlit("webidl");
    reveal_strlit("webp");
    reveal_strlit("wiki");
    reveal_strlit("woff");
    reveal_strlit("xls");
    reveal_strlit("xml");
    reveal_strlit("xz");
    reveal_strlit("yacc");
    reveal_strlit("yaml");
    reveal_strlit("yang");
    assert("usd"@[0] != "all"@[0]);
    assert("usd"@ != "all"@);
    assert("v"@.len() != "all"@.len());
    assert("v"@ != "all"@);
    assert("vala"@.len() != "all"@.len());
    assert("vala"@ != "all"@);
    assert("vb"@.len() != "all"@.len());
    assert("vb"@ != "all"@);
    assert("vcl"@[0] != "all"@[0]);
    assert("vcl"@ != "all"@);
    assert("verilog"@.len() != "all"@.len());
    assert("verilog"@ != "all"@);
    assert("vhdl"@.len() != "all"@.len());
    assert("vhdl"@ != "all"@);
    assert("vim"@[0] != "all"@[0]);
    assert("vim"@ != "all"@);
    assert("vimscript"@.len() != "all"@.len());
    assert("vimscript"@ != "all"@);
    assert("wav"@[0] != "all"@[0]);
    assert("wav"@ != "all"@);
    assert("webidl"@.len() != "all"@.len());
    assert("webidl"@ != "all"@);
    assert("webp"@.len() != "all"@.len());
    assert("webp"@ != "all"@);
    assert("wiki"@.len() != "all"@.len());
    assert("wiki"@ != "all"@);
    assert("woff"@.len() != "all"@.len());
    assert("woff"@ != "all"@);
    assert("xls"@[0] != "all"@[0]);
    assert("xls"@ != "all"@);
    assert("xml"@[0] != "all"@[0]);
    assert("xml"@ != "all"@);
    assert("xz"@.len() != "all"@.len());
    assert("xz"@ != "all"@);
    assert("yacc"@.len() != "all"@.len());
    assert("yacc"@ != "all"@);
    assert("yaml"@.len() != "all"@.len());
    assert("yaml"@ != "all"@);
    assert("yang"@.len() != "all"@.len());
    assert("yang"@ != "all"@);

}

/// No alias of this stretch of the table is the select-everything word.
proof fn lemma_part_12_no_all()
    ensures
        no_alias_named(table_part_12(), "all"@),
{
    reveal_strlit("all");
    reveal_strlit("z");
    reveal_strlit("zig");
    reveal_strlit("zip");
    reveal_strlit("zsh");
    reveal_strlit("zstd");
    assert("z"@.len() != "all"@.len());
    assert("z"@ != "all"@);
    assert("zig"@[0] != "all"@[0]);
    assert("zig"@ != "all"@);
    assert("zip"@[0] != "all"@[0]);
    assert("zip"@ != "all"@);
    assert("zsh"@[0] != "all"@[0]);
    assert("zsh"@ != "all"@);
    assert("zstd"@.len() != "all"@.len());
    assert("zstd"@ != "all"@);

}

/// No alias of the built-in table is the word `all`, which the matcher
/// builder treats as select-everything rather than as a type name.
pub proof fn lemma_no_alias_is_all()
    ensures
        no_alias_named(default_table_view(), "all"@),
{
    lemma_part_0_no_all();
    lemma_part_1_no_all();
    lemma_part_2_no_all();
    lemma_part_3_no_all();
    lemma_part_4_no_all();
    lemma_part_5_no_all();
    lemma_part_6_no_all();
    lemma_part_7_no_all();
    lemma_part_8_no_all();
    lemma_part_9_no_all();
    lemma_part_10_no_all();
    lemma_part_11_no_all();
    lemma_part_12_no_all();
    lemma_no_alias_named_add(table_part_0(), table_part_1(), "all"@);
    lemma_no_alias_named_add(table_part_0() + table_part_1(), table_part_2(), "all"@);
    lemma_no_alias_named_add(table_part_0() + table_part_1() + table_part_2(), table_part_3(), "all"@);
    lemma_no_alias_named_add(table_part_0() + table_part_1() + table_part_2() + table_part_3(), table_part_4(), "all"@);
    lemma_no_alias_named_add(table_part_0() + table_part_1() + table_part_2() + table_part_3() + table_part_4(), table_part_5(), "all"@);
    lemma_no_alias_named_add(table_part_0() + table_part_1() + table_part_2() + table_part_3() + table_part_4() + table_part_5(), table_part_6(), "all"@);
    lemma_no_alias_named_add(table_part_0() + table_part_1() + table_part_2() + table_part_3() + table_part_4() + table_part_5() + table_part_6(), table_part_7(), "all"@);
    lemma_no_alias_named_add(table_part_0() + table_part_1() + table_part_2() + table_part_3() + table_part_4() + table_part_5() + table_part_6() + table_part_7(), table_part_8(), "all"@);
    lemma_no_alias_named_add(table_part_0() + table_part_1() + table_part_2() + table_part_3() + table_part_4() + table_part_5() + table_part_6() + table_part_7() + table_part_8(), table_part_9(), "all"@);
    lemma_no_alias_named_add(table_part_0() + table_part_1() + table_part_2() + table_part_3() + table_part_4() + table_part_5() + table_part_6() + table_part_7() + table_part_8() + table_part_9(), table_part_10(), "all"@);
    lemma_no_alias_named_add(table_part_0() + table_part_1() + table_part_2() + table_part_3() + table_part_4() + table_part_5() + table_part_6() + table_part_7() + table_part_8() + table_part_9() + table_part_10(), table_part_11(), "all"@);
    lemma_no_alias_named_add(table_part_0() + table_part_1() + table_part_2() + table_part_3() + table_part_4() + table_part_5() + table_part_6() + table_part_7() + table_part_8() + table_part_9() + table_part_10() + table_part_11(), table_part_12(), "all"@);
}

} // verus!

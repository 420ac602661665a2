//! The traversal-report pipeline's computations: report modes, walker
//! configuration, record ordering and the per-line output format.

use vstd::prelude::*;

verus! {

use vstd::string::StrSliceExecFns;
use vstd::string::StringExecFns;
use colored::Colorize;
use rayon::prelude::ParallelSliceMut;
use crate::args::Args;
use crate::types::{chars_le, lemma_no_reset_subrange, no_reset_sequence, str_le};
use crate::fuzzy::str_eq;

/// How a byte count is rendered in the size field.
#[derive(Clone, Copy, Debug, PartialEq, Eq, Structural)]
pub enum SizeFormat {
    /// A plain decimal byte count.
    Raw,
    /// Human-readable SI metric units, powers of 1000, right-justified to
    /// width nine.
    Decimal,
    /// Human-readable binary units, powers of 1024, right-justified to
    /// width ten.
    Binary,
}

/// One of the four mutually exclusive report modes.
#[derive(Clone, Copy, Debug, PartialEq, Eq, Structural)]
pub enum ReportMode {
    /// Collect all records, sort by (size, path) ascending, then print.
    SizeAscending,
    /// Collect all records, sort by (size, path) descending, then print.
    SizeDescending,
    /// Stream records in the walker's name-sorted order.
    NameSorted,
    /// Fan the walk across workers; emission order is unspecified.
    ParallelUnordered,
}

/// The size format the options select: metric units win over binary units,
/// and a plain byte count is the default.
pub open spec fn spec_size_format(args: &Args) -> SizeFormat {
    if args.metric_units {
        SizeFormat::Decimal
    } else if args.binary_units {
        SizeFormat::Binary
    } else {
        SizeFormat::Raw
    }
}

/// Selects the size format from the options.
pub fn size_format(args: &Args) -> (r: SizeFormat)
    ensures
        r == spec_size_format(args),
{
    if args.metric_units {
        SizeFormat::Decimal
    } else if args.binary_units {
        SizeFormat::Binary
    } else {
        SizeFormat::Raw
    }
}

/// The report mode the options select: the parallel walk wins, then the
/// name sort, then the descending size sort; the ascending size sort is the
/// default.
pub open spec fn spec_report_mode(args: &Args) -> ReportMode {
    if args.parallel {
        ReportMode::ParallelUnordered
    } else if args.name {
        ReportMode::NameSorted
    } else if args.highlow {
        ReportMode::SizeDescending
    } else {
        ReportMode::SizeAscending
    }
}

/// Selects the report mode from the options.
pub fn report_mode(args: &Args) -> (r: ReportMode)
    ensures
        r == spec_report_mode(args),
{
    if args.parallel {
        ReportMode::ParallelUnordered
    } else if args.name {
        ReportMode::NameSorted
    } else if args.highlow {
        ReportMode::SizeDescending
    } else {
        ReportMode::SizeAscending
    }
}

/// The filter the walker is configured with: at most one of the type filter
/// and the glob overrides.
#[derive(Debug)]
pub enum WalkFilter {
    /// No filtering beyond the walker's ignore-file semantics.
    Unfiltered,
    /// Whitelist the named built-in file types.
    Types(Vec<String>),
    /// Apply the user's glob override patterns.
    Globs(Vec<String>),
}

/// The walker configuration derived from the options: everything the
/// traversal collaborator is told before any entry is visited.
#[derive(Debug)]
pub struct WalkPlan {
    /// Skip hidden files and directories; the inverse of the option.
    pub skip_hidden: bool,
    /// Maximum traversal depth.
    pub max_depth: Option<usize>,
    /// Ask the walker for lexicographic path order.
    pub sort_by_name: bool,
    /// The active filter.
    pub filter: WalkFilter,
}

/// Derives the walker configuration from the options. The hidden flag is
/// inverted: the option shows hidden files, the walker is told what to
/// skip. A type filter wins over glob overrides, and an empty glob list
/// means no overrides.
pub fn walk_plan(args: &Args) -> (r: WalkPlan)
    ensures
        r.skip_hidden == !args.hidden,
        r.max_depth == args.depth,
        r.sort_by_name == args.name,
        args.default_type matches Some(t) ==> (r.filter matches WalkFilter::Types(u) && u@ == t@),
        args.default_type is None ==> (args.glob matches Some(g) ==> (g@.len() > 0 ==> (
        r.filter matches WalkFilter::Globs(u) && u@ == g@))),
        args.default_type is None ==> (args.glob matches Some(g) ==> (g@.len() == 0
            ==> r.filter is Unfiltered)),
        args.default_type is None && args.glob is None ==> r.filter is Unfiltered,
{
    let filter = match &args.default_type {
        Some(t) => WalkFilter::Types(t.clone()),
        None => match &args.glob {
            Some(g) => if g.len() > 0 {
                WalkFilter::Globs(g.clone())
            } else {
                WalkFilter::Unfiltered
            },
            None => WalkFilter::Unfiltered,
        },
    };
    WalkPlan {
        skip_hidden: !args.hidden,
        max_depth: args.depth,
        sort_by_name: args.name,
        filter,
    }
}

/// The character of one decimal digit.
pub open spec fn digit_char(d: int) -> char {
    if d == 0 {
        '0'
    } else if d == 1 {
        '1'
    } else if d == 2 {
        '2'
    } else if d == 3 {
        '3'
    } else if d == 4 {
        '4'
    } else if d == 5 {
        '5'
    } else if d == 6 {
        '6'
    } else if d == 7 {
        '7'
    } else if d == 8 {
        '8'
    } else {
        '9'
    }
}

/// The decimal rendering of a natural number, most significant digit first.
pub open spec fn dec_chars(n: nat) -> Seq<char>
    decreases n,
{
    if n < 10 {
        seq![digit_char(n as int)]
    } else {
        dec_chars(n / 10) + seq![digit_char((n % 10) as int)]
    }
}

/// One decimal digit as a string slice.
fn digit_str(d: u64) -> (s: &'static str)
    requires
        d < 10,
    ensures
        s@ == seq![digit_char(d as int)],
{
    let r: &'static str = if d == 0 {
        "0"
    } else if d == 1 {
        "1"
    } else if d == 2 {
        "2"
    } else if d == 3 {
        "3"
    } else if d == 4 {
        "4"
    } else if d == 5 {
        "5"
    } else if d == 6 {
        "6"
    } else if d == 7 {
        "7"
    } else if d == 8 {
        "8"
    } else {
        "9"
    };
    proof {
        reveal_strlit("0");
        reveal_strlit("1");
        reveal_strlit("2");
        reveal_strlit("3");
        reveal_strlit("4");
        reveal_strlit("5");
        reveal_strlit("6");
        reveal_strlit("7");
        reveal_strlit("8");
        reveal_strlit("9");
        assert(r@ =~= seq![digit_char(d as int)]);
    }
    r
}

/// Renders a byte count as a plain decimal string.
pub fn u64_to_dec(n: u64) -> (s: String)
    ensures
        s@ == dec_chars(n as nat),
    decreases n,
{
    if n < 10 {
        digit_str(n).to_owned()
    } else {
        let mut s = u64_to_dec(n / 10);
        s.append(digit_str(n % 10));
        s
    }
}

/// A run of spaces.
pub open spec fn spaces(n: nat) -> Seq<char>
    decreases n,
{
    if n == 0 {
        Seq::empty()
    } else {
        spaces((n - 1) as nat) + seq![' ']
    }
}

/// The text, right-justified to the width with leading spaces; text at or
/// over the width is unchanged.
pub open spec fn pad_left(s: Seq<char>, w: nat) -> Seq<char> {
    if s.len() >= w {
        s
    } else {
        spaces((w - s.len()) as nat) + s
    }
}

/// Right-justifies the text to the width with leading spaces.
fn pad_to_width(s: &str, width: usize) -> (r: String)
    ensures
        r@ == pad_left(s@, width as nat),
{
    let n = s.unicode_len();
    let mut out = String::new();
    if n < width {
        let pad = width - n;
        let mut i: usize = 0;
        proof {
            reveal_strlit(" ");
            assert(out@ =~= spaces(0));
        }
        while i < pad
            invariant
                i <= pad,
                out@ == spaces(i as nat),
                " "@ == seq![' '],
            decreases pad - i,
        {
            out.append(" ");
            assert(out@ =~= spaces((i + 1) as nat));
            i = i + 1;
        }
    }
    out.append(s);
    assert(out@ =~= pad_left(s@, width as nat));
    out
}

/// The human-readable SI metric rendering of a byte count, in powers of
/// 1000, as the humansize collaborator produces it.
pub uninterp spec fn decimal_size_of(n: u64) -> Seq<char>;

/// The human-readable binary rendering of a byte count, in powers of 1024,
/// as the humansize collaborator produces it.
pub uninterp spec fn binary_size_of(n: u64) -> Seq<char>;

/// Formats a byte count in SI metric units.
///
/// Relies on humansize's format_size with the DECIMAL options: the text is
/// a function of the byte count alone.
#[verifier::external_body]
pub fn metric_size(n: u64) -> (r: String)
    ensures
        r@ == decimal_size_of(n),
{
    humansize::format_size(n, humansize::DECIMAL)
}

/// Formats a byte count in binary units.
///
/// Relies on humansize's format_size with the BINARY options: the text is a
/// function of the byte count alone.
#[verifier::external_body]
pub fn binary_size(n: u64) -> (r: String)
    ensures
        r@ == binary_size_of(n),
{
    humansize::format_size(n, humansize::BINARY)
}

/// The platform's path separator.
///
/// Relies on std::path::MAIN_SEPARATOR: a slash on Unix-like platforms and
/// a backslash on Windows; which of the two depends on the platform.
#[verifier::external_body]
fn main_separator() -> (c: char)
    ensures
        c == '/' || c == '\\',
{
    std::path::MAIN_SEPARATOR
}

/// A one-character string.
///
/// Relies on char's Display through str's ToString: the string holds
/// exactly that character.
#[verifier::external_body]
fn char_to_string(c: char) -> (r: String)
    ensures
        r@ == seq![c],
{
    c.to_string()
}

/// A blue-painted fragment of a report line: the text itself when color
/// output is off, or the text between the blue style code and the reset.
pub open spec fn blue_fragment(s: Seq<char>, styled: bool) -> Seq<char> {
    if styled {
        "\u{1b}[34m"@ + s + "\u{1b}[0m"@
    } else {
        s
    }
}

/// Paints a path fragment for colored output.
///
/// Relies on colored's Colorize::blue and ColoredString's Display: whether
/// the escape codes are emitted depends on the process environment, but
/// reset-free text is passed through verbatim, either plain or between the
/// blue style code and the trailing reset.
#[verifier::external_body]
fn paint_path_fragment(s: &str) -> (r: String)
    ensures
        no_reset_sequence(s@) ==> (r@ == blue_fragment(s@, false) || r@ == blue_fragment(
            s@,
            true,
        )),
{
    format!("{}", s.blue())
}

/// The size field of one report line, under the active format.
pub open spec fn size_field(size: u64, fmt: SizeFormat) -> Seq<char> {
    match fmt {
        SizeFormat::Raw => dec_chars(size as nat),
        SizeFormat::Decimal => pad_left(decimal_size_of(size), 9),
        SizeFormat::Binary => pad_left(binary_size_of(size), 10),
    }
}

/// One report line: the size field, a tab, then the path.
pub open spec fn report_line(size: u64, path: Seq<char>, fmt: SizeFormat) -> Seq<char> {
    size_field(size, fmt) + "\t"@ + path
}

/// The index just after the last occurrence of the separator, or zero when
/// the path holds none.
pub open spec fn split_point_of(path: Seq<char>, sep: char) -> int
    decreases path.len(),
{
    if path.len() == 0 {
        0
    } else if path.last() == sep {
        path.len() as int
    } else {
        split_point_of(path.drop_last(), sep)
    }
}

/// Finds the index just after the last separator in the path, or zero when
/// the path holds none.
fn split_point(path: &str, sep: char) -> (r: usize)
    ensures
        r <= path@.len(),
        r == split_point_of(path@, sep),
{
    let n = path.unicode_len();
    proof {
        assert(path@.take(n as int) =~= path@);
    }
    let mut i: usize = n;
    while i > 0
        invariant
            i <= n,
            n == path@.len(),
            split_point_of(path@, sep) == split_point_of(path@.take(i as int), sep),
        decreases i,
    {
        proof {
            assert(path@.take(i as int).len() == i);
            assert(path@.take(i as int).last() == path@[i - 1]);
            assert(path@.take(i as int).drop_last() =~= path@.take(i - 1));
        }
        if path.get_char(i - 1) == sep {
            return i;
        }
        i = i - 1;
    }
    assert(path@.take(0).len() == 0);
    0
}

/// A colored report line keeps the uncolored structure: the exact size
/// field, the tab, then some painted text followed by the path's unpainted
/// tail after its last separator, for one of the two platform separators.
pub open spec fn colored_line_shape(
    r: Seq<char>,
    size: u64,
    path: Seq<char>,
    fmt: SizeFormat,
) -> bool {
    exists|painted: Seq<char>, sep: char|
        (sep == '/' || sep == '\\') && r == size_field(size, fmt) + "\t"@ + painted + path.skip(
            split_point_of(path, sep),
        )
}

/// A colored report line over a reset-free path, exactly: the size field
/// and tab, the blue-painted parent directory, the blue-painted final
/// separator (the platform's own when the path holds none), then the
/// unpainted file name, for the given separator and paint outcomes.
pub open spec fn colored_line_exact_with(
    r: Seq<char>,
    size: u64,
    path: Seq<char>,
    fmt: SizeFormat,
    sep: char,
    b1: bool,
    b2: bool,
) -> bool {
    (sep == '/' || sep == '\\') && ({
        let cut = split_point_of(path, sep);
        let parent = if cut > 0 {
            path.subrange(0, cut - 1)
        } else {
            Seq::<char>::empty()
        };
        let sepstr = if cut > 0 {
            path.subrange(cut - 1, cut)
        } else {
            seq![sep]
        };
        r == size_field(size, fmt) + "\t"@ + blue_fragment(parent, b1) + blue_fragment(sepstr, b2)
            + path.skip(cut)
    })
}

/// The exact colored line, for some platform separator and some pair of
/// paint outcomes.
pub open spec fn colored_line_exact(
    r: Seq<char>,
    size: u64,
    path: Seq<char>,
    fmt: SizeFormat,
) -> bool {
    exists|sep: char, b1: bool, b2: bool|
        #[trigger] colored_line_exact_with(r, size, path, fmt, sep, b1, b2)
}

/// Renders one report line for one surviving file entry: the size field
/// under the active format, a tab, then the path. With `color` set, the
/// parent directory and the final separator are emphasized and the file
/// name is not, as a pure rendering detail: the size field, the tab and
/// the path's tail after the painted part are unchanged.
pub fn format_report_line(size: u64, path: &str, fmt: SizeFormat, color: bool) -> (r: String)
    ensures
        !color ==> r@ == report_line(size, path@, fmt),
        color ==> colored_line_shape(r@, size, path@, fmt),
        color && no_reset_sequence(path@) ==> colored_line_exact(r@, size, path@, fmt),
{
    let mut out: String = match fmt {
        SizeFormat::Raw => u64_to_dec(size),
        SizeFormat::Decimal => {
            let text = metric_size(size);
            pad_to_width(text.as_str(), 9)
        },
        SizeFormat::Binary => {
            let text = binary_size(size);
            pad_to_width(text.as_str(), 10)
        },
    };
    out.append("\t");
    let ghost field = out@;
    assert(field =~= size_field(size, fmt) + "\t"@);
    if color {
        let sep = main_separator();
        let n = path.unicode_len();
        let cut = split_point(path, sep);
        if cut > 0 {
            let parent = path.substring_char(0, cut - 1);
            let name = path.substring_char(cut, n);
            let painted_parent = paint_path_fragment(parent);
            let sep_str = path.substring_char(cut - 1, cut);
            let painted_sep = paint_path_fragment(sep_str);
            out.append(painted_parent.as_str());
            out.append(painted_sep.as_str());
            out.append(name);
            proof {
                assert(name@ =~= path@.skip(cut as int));
                assert(out@ =~= field + (painted_parent@ + painted_sep@) + path@.skip(cut as int));
                assert(colored_line_shape(out@, size, path@, fmt));
                if no_reset_sequence(path@) {
                    lemma_no_reset_subrange(path@, 0, cut - 1);
                    assert(no_reset_sequence(sep_str@)) by {
                        assert(sep_str@.len() == 1);
                    }
                    let b1 = painted_parent@ != parent@;
                    let b2 = painted_sep@ != sep_str@;
                    assert(painted_parent@ == blue_fragment(parent@, b1));
                    assert(painted_sep@ == blue_fragment(sep_str@, b2));
                    assert(out@ == field + blue_fragment(parent@, b1) + blue_fragment(
                        sep_str@,
                        b2,
                    ) + path@.skip(cut as int)) by {
                        assert(out@ =~= field + blue_fragment(parent@, b1) + blue_fragment(
                            sep_str@,
                            b2,
                        ) + path@.skip(cut as int));
                    }
                    assert(colored_line_exact_with(out@, size, path@, fmt, sep, b1, b2));
                    assert(colored_line_exact(out@, size, path@, fmt));
                }
            }
        } else {
            let painted_empty = paint_path_fragment("");
            let sep_str = char_to_string(sep);
            let painted_sep = paint_path_fragment(sep_str.as_str());
            out.append(painted_empty.as_str());
            out.append(painted_sep.as_str());
            out.append(path);
            proof {
                assert(path@.skip(0) =~= path@);
                assert(out@ =~= field + (painted_empty@ + painted_sep@) + path@.skip(0));
                assert(colored_line_shape(out@, size, path@, fmt));
                if no_reset_sequence(path@) {
                    let empty = Seq::<char>::empty();
                    assert(no_reset_sequence(empty));
                    assert(""@ =~= empty) by {
                        reveal_strlit("");
                    }
                    assert(no_reset_sequence(sep_str@)) by {
                        assert(sep_str@.len() == 1);
                    }
                    let b1 = painted_empty@ != empty;
                    let b2 = painted_sep@ != sep_str@;
                    assert(painted_empty@ == blue_fragment(empty, b1));
                    assert(painted_sep@ == blue_fragment(seq![sep], b2));
                    assert(out@ == field + blue_fragment(empty, b1) + blue_fragment(
                        seq![sep],
                        b2,
                    ) + path@.skip(0)) by {
                        assert(out@ =~= field + blue_fragment(empty, b1) + blue_fragment(
                            seq![sep],
                            b2,
                        ) + path@.skip(0));
                    }
                    assert(colored_line_exact_with(out@, size, path@, fmt, sep, b1, b2));
                    assert(colored_line_exact(out@, size, path@, fmt));
                }
            }
        }
    } else {
        out.append(path);
    }
    out
}

/// One surviving walk entry: its byte size and its path, as the walker
/// produced it.
#[derive(Debug)]
pub struct FileRecord {
    pub size: u64,
    pub path: String,
}

/// The mathematical shape of a record: the size and the path's characters.
#[verifier::ext_equal]
pub ghost struct FileRecordV {
    pub size: u64,
    pub path: Seq<char>,
}

impl View for FileRecord {
    type V = FileRecordV;

    open spec fn view(&self) -> FileRecordV {
        FileRecordV { size: self.size, path: self.path@ }
    }
}

impl DeepView for FileRecord {
    type V = FileRecordV;

    open spec fn deep_view(&self) -> FileRecordV {
        self.view()
    }
}

/// Tuple order on records: by size first, then by path. The descending mode
/// reverses this whole order, so equal sizes order by path descending
/// there.
pub open spec fn record_le(a: FileRecordV, b: FileRecordV) -> bool {
    a.size < b.size || (a.size == b.size && chars_le(a.path, b.path))
}

/// Each neighbour pair of the sequence is ordered by the record order,
/// ascending, or descending when `descending` is set.
pub open spec fn sorted_by_size(s: Seq<FileRecordV>, descending: bool) -> bool {
    forall|i: int|
        0 <= i < s.len() - 1 ==> (if descending {
            record_le(#[trigger] s[i + 1], s[i])
        } else {
            record_le(#[trigger] s[i], s[i + 1])
        })
}

/// Compares two records in the tuple order.
pub fn record_cmp(a: &FileRecord, b: &FileRecord) -> (r: core::cmp::Ordering)
    ensures
        (r is Less) == (a@ != b@ && record_le(a@, b@)),
        (r is Equal) == (a@ == b@),
{
    if a.size < b.size {
        core::cmp::Ordering::Less
    } else if a.size > b.size {
        core::cmp::Ordering::Greater
    } else if str_eq(a.path.as_str(), b.path.as_str()) {
        assert(a@ =~= b@);
        core::cmp::Ordering::Equal
    } else if str_le(a.path.as_str(), b.path.as_str()) {
        core::cmp::Ordering::Less
    } else {
        core::cmp::Ordering::Greater
    }
}

/// Sorts the records in place by the (size, path) tuple order, ascending,
/// or descending when `descending` is set: the records are permuted and
/// each neighbour pair ends up ordered.
///
/// Relies on rayon's par_sort_unstable_by: the slice is sorted in parallel
/// according to the comparator, which totally orders records by size and
/// then path; the descending mode hands the comparator its operands in
/// swapped order.
#[verifier::external_body]
pub fn sort_records(v: &mut Vec<FileRecord>, descending: bool)
    ensures
        final(v)@.len() == old(v)@.len(),
        final(v).deep_view().to_multiset() == old(v).deep_view().to_multiset(),
        sorted_by_size(final(v).deep_view(), descending),
{
    if descending {
        v.par_sort_unstable_by(|a, b| record_cmp(b, a));
    } else {
        v.par_sort_unstable_by(|a, b| record_cmp(a, b));
    }
}

/// The descending mode is no independent tie-break rule: a sequence is
/// sorted descending exactly when, read backwards, it is sorted ascending.
/// The one tuple order serves both modes with its operands swapped, so
/// equal sizes order by path descending in the descending mode.
pub proof fn lemma_descending_reverses(s: Seq<FileRecordV>)
    ensures
        sorted_by_size(s, true) <==> sorted_by_size(s.reverse(), false),
{
    let r = s.reverse();
    if sorted_by_size(s, true) {
        assert forall|i: int| 0 <= i < r.len() - 1 implies record_le(#[trigger] r[i], r[i + 1]) by {
            assert(r[i] == s[s.len() - 1 - i]);
            assert(r[i + 1] == s[s.len() - 2 - i]);
            assert(record_le(s[(s.len() - 2 - i) + 1], s[s.len() - 2 - i]));
        }
    }
    if sorted_by_size(r, false) {
        assert forall|i: int| 0 <= i < s.len() - 1 implies record_le(#[trigger] s[i + 1], s[i]) by {
            assert(r[s.len() - 1 - i] == s[i]);
            assert(r[s.len() - 2 - i] == s[i + 1]);
            assert(record_le(r[s.len() - 2 - i], r[(s.len() - 2 - i) + 1]));
        }
    }
}

/// In a sorted sequence the neighbour order extends to every pair.
proof fn lemma_sorted_pairwise(s: Seq<FileRecordV>, descending: bool, i: int, j: int)
    requires
        sorted_by_size(s, descending),
        0 <= i <= j < s.len(),
    ensures
        descending ==> record_le(s[j], s[i]),
        !descending ==> record_le(s[i], s[j]),
    decreases j - i,
{
    if i == j {
        crate::types::lemma_chars_le_total(s[i].path, s[i].path);
    } else {
        lemma_sorted_pairwise(s, descending, i + 1, j);
        if descending {
            lemma_record_le_total_order(s[j], s[i + 1], s[i]);
        } else {
            lemma_record_le_total_order(s[i], s[i + 1], s[j]);
        }
    }
}

/// There is only one sorted arrangement: two sequences sorted the same way
/// that hold the same records are equal. Together with the sort's
/// sorted-permutation contract this pins the report order completely:
/// ascending by the (size, path) tuple with size ties broken by path
/// ascending, and descending as the exact reverse of that whole tuple
/// order, so equal sizes order by path descending there.
pub proof fn lemma_sorted_unique(a: Seq<FileRecordV>, b: Seq<FileRecordV>, descending: bool)
    requires
        sorted_by_size(a, descending),
        sorted_by_size(b, descending),
        a.to_multiset() == b.to_multiset(),
    ensures
        a == b,
    decreases a.len(),
{
    broadcast use vstd::seq_lib::group_to_multiset_ensures;
    broadcast use vstd::multiset::group_multiset_axioms;

    if a.len() == 0 {
        assert(a.to_multiset().len() == a.len());
        assert(b.to_multiset().len() == b.len());
        assert(a =~= b);
    } else {
        assert(a.to_multiset().len() == a.len());
        assert(b.to_multiset().len() == b.len());
        assert(b.len() == a.len());
        assert(a.contains(a[0]));
        assert(b.to_multiset().count(a[0]) > 0);
        assert(b.contains(a[0]));
        let ia = choose|t: int| 0 <= t < b.len() && b[t] == a[0];
        assert(a.to_multiset().count(b[0]) > 0);
        assert(a.contains(b[0]));
        let ib = choose|t: int| 0 <= t < a.len() && a[t] == b[0];
        lemma_sorted_pairwise(b, descending, 0, ia);
        lemma_sorted_pairwise(a, descending, 0, ib);
        lemma_record_le_total_order(a[0], b[0], b[0]);
        assert(a[0] == b[0]);
        assert(a.remove(0) =~= a.drop_first());
        assert(b.remove(0) =~= b.drop_first());
        assert(a.drop_first().to_multiset() =~= a.to_multiset().remove(a[0]));
        assert(b.drop_first().to_multiset() =~= b.to_multiset().remove(b[0]));
        assert(sorted_by_size(a.drop_first(), descending)) by {
            assert forall|t: int|
                0 <= t < a.drop_first().len() - 1 implies (if descending {
                record_le(#[trigger] a.drop_first()[t + 1], a.drop_first()[t])
            } else {
                record_le(#[trigger] a.drop_first()[t], a.drop_first()[t + 1])
            }) by {
                assert(a.drop_first()[t] == a[t + 1]);
                assert(a.drop_first()[t + 1] == a[t + 2]);
            }
        }
        assert(sorted_by_size(b.drop_first(), descending)) by {
            assert forall|t: int|
                0 <= t < b.drop_first().len() - 1 implies (if descending {
                record_le(#[trigger] b.drop_first()[t + 1], b.drop_first()[t])
            } else {
                record_le(#[trigger] b.drop_first()[t], b.drop_first()[t + 1])
            }) by {
                assert(b.drop_first()[t] == b[t + 1]);
                assert(b.drop_first()[t + 1] == b[t + 2]);
            }
        }
        lemma_sorted_unique(a.drop_first(), b.drop_first(), descending);
        assert forall|t: int| 0 <= t < a.len() implies a[t] == b[t] by {
            if t > 0 {
                assert(a.drop_first()[t - 1] == b.drop_first()[t - 1]);
            }
        }
        assert(a =~= b);
    }
}

/// Renders one report line per record, in the records' order. With `color`
/// set, each line keeps the colored structure: the exact size field, tab
/// and unpainted file name, and, for a reset-free path, exactly the painted
/// parent and separator around it.
pub fn render_report_lines(records: &Vec<FileRecord>, fmt: SizeFormat, color: bool) -> (r: Vec<
    String,
>)
    ensures
        r@.len() == records@.len(),
        !color ==> forall|i: int|
            0 <= i < records@.len() ==> (#[trigger] r@[i])@ == report_line(
                records@[i].size,
                records@[i]@.path,
                fmt,
            ),
        color ==> forall|i: int|
            0 <= i < records@.len() ==> colored_line_shape(
                (#[trigger] r@[i])@,
                records@[i].size,
                records@[i]@.path,
                fmt,
            ),
        color ==> forall|i: int|
            0 <= i < records@.len() ==> (no_reset_sequence(records@[i]@.path)
                ==> colored_line_exact(
                (#[trigger] r@[i])@,
                records@[i].size,
                records@[i]@.path,
                fmt,
            )),
{
    let mut out: Vec<String> = Vec::new();
    let mut i: usize = 0;
    while i < records.len()
        invariant
            i <= records@.len(),
            out@.len() == i,
            !color ==> forall|k: int|
                0 <= k < i ==> (#[trigger] out@[k])@ == report_line(
                    records@[k].size,
                    records@[k]@.path,
                    fmt,
                ),
            color ==> forall|k: int|
                0 <= k < i ==> colored_line_shape(
                    (#[trigger] out@[k])@,
                    records@[k].size,
                    records@[k]@.path,
                    fmt,
                ),
            color ==> forall|k: int|
                0 <= k < i ==> (no_reset_sequence(records@[k]@.path) ==> colored_line_exact(
                    (#[trigger] out@[k])@,
                    records@[k].size,
                    records@[k]@.path,
                    fmt,
                )),
        decreases records@.len() - i,
    {
        let line = format_report_line(records[i].size, records[i].path.as_str(), fmt, color);
        out.push(line);
        i = i + 1;
    }
    out
}

/// One event a parallel walker worker sees while handling one entry.
#[derive(Clone, Copy, Debug, PartialEq, Eq, Structural)]
pub enum WalkEvent {
    /// The walker failed to read the entry.
    EntryFailed,
    /// The entry is not a regular file, so nothing is reported for it.
    NotAFile,
    /// Reading the entry's metadata failed.
    MetadataFailed,
    /// The entry was reported: its line written, or its record collected.
    WroteLine,
    /// Writing the entry's line failed; the flag says whether the failure
    /// was a broken output pipe.
    WriteFailed { broken_pipe: bool },
}

/// What a worker does after one event: whether the pool keeps admitting
/// entries, and whether the failure is reported on the diagnostic stream.
#[derive(Clone, Copy, Debug, PartialEq, Eq, Structural)]
pub struct WorkerAction {
    pub keep_going: bool,
    pub report_error: bool,
}

/// The per-event worker policy: entry and metadata failures stop the pool
/// and are reported; write failures stop the pool and are reported unless
/// the output pipe broke, in which case the worker carries on silently;
/// everything else carries on.
///
/// A worker that carries on past a broken pipe differs from the sequential
/// modes, which abort the remaining walk on a broken pipe and exit
/// cleanly; the difference is deliberate here and pinned by test.
pub open spec fn spec_parallel_walk_step(ev: WalkEvent) -> WorkerAction {
    match ev {
        WalkEvent::EntryFailed => WorkerAction { keep_going: false, report_error: true },
        WalkEvent::NotAFile => WorkerAction { keep_going: true, report_error: false },
        WalkEvent::MetadataFailed => WorkerAction { keep_going: false, report_error: true },
        WalkEvent::WroteLine => WorkerAction { keep_going: true, report_error: false },
        WalkEvent::WriteFailed { broken_pipe } => WorkerAction {
            keep_going: broken_pipe,
            report_error: !broken_pipe,
        },
    }
}

/// Decides a worker's next step for one event.
pub fn parallel_walk_step(ev: WalkEvent) -> (r: WorkerAction)
    ensures
        r == spec_parallel_walk_step(ev),
{
    match ev {
        WalkEvent::EntryFailed => WorkerAction { keep_going: false, report_error: true },
        WalkEvent::NotAFile => WorkerAction { keep_going: true, report_error: false },
        WalkEvent::MetadataFailed => WorkerAction { keep_going: false, report_error: true },
        WalkEvent::WroteLine => WorkerAction { keep_going: true, report_error: false },
        WalkEvent::WriteFailed { broken_pipe } => WorkerAction {
            keep_going: broken_pipe,
            report_error: !broken_pipe,
        },
    }
}

/// The single-threaded per-event policy: only a reported entry or a skipped
/// non-file carries on; any failure aborts the remaining walk, to propagate
/// to the top level. Unlike the parallel workers, the sequential modes make
/// no broken-pipe carve-out here: the top level classifies the propagated
/// failure instead.
pub open spec fn spec_sequential_walk_step(ev: WalkEvent) -> bool {
    ev is NotAFile || ev is WroteLine
}

/// Decides whether a single-threaded walk carries on after one event.
pub fn sequential_walk_step(ev: WalkEvent) -> (r: bool)
    ensures
        r == spec_sequential_walk_step(ev),
{
    match ev {
        WalkEvent::NotAFile => true,
        WalkEvent::WroteLine => true,
        WalkEvent::EntryFailed => false,
        WalkEvent::MetadataFailed => false,
        WalkEvent::WriteFailed { broken_pipe: _ } => false,
    }
}

/// The process exit code after a failed run: a broken output pipe is a
/// clean early termination, everything else is an error.
pub fn exit_code_for_failure(broken_pipe: bool) -> (c: u8)
    ensures
        broken_pipe ==> c == 0,
        !broken_pipe ==> c == 1,
{
    if broken_pipe {
        0
    } else {
        1
    }
}

/// The record order is a total order: any two records are comparable, the
/// order is transitive, and mutually ordered records are equal. This is
/// what entitles a sort to use it as its comparator.
pub proof fn lemma_record_le_total_order(a: FileRecordV, b: FileRecordV, c: FileRecordV)
    ensures
        record_le(a, b) || record_le(b, a),
        record_le(a, b) && record_le(b, c) ==> record_le(a, c),
        record_le(a, b) && record_le(b, a) ==> a == b,
{
    crate::types::lemma_chars_le_total(a.path, b.path);
    if record_le(a, b) && record_le(b, c) && a.size == b.size && b.size == c.size {
        crate::types::lemma_chars_le_trans(a.path, b.path, c.path);
    }
    if record_le(a, b) && record_le(b, a) {
        crate::types::lemma_chars_le_antisymmetric(a.path, b.path);
        assert(a =~= b);
    }
}

} // verus!

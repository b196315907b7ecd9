use vstd::prelude::*;

verus! {

/// `a` with every single quote preceded by a backslash.
pub open spec fn escaped(a: Seq<char>) -> Seq<char>
    decreases a.len(),
{
    if a.len() == 0 {
        Seq::empty()
    } else if a.last() == '\'' {
        escaped(a.drop_last()) + seq!['\\', '\'']
    } else {
        escaped(a.drop_last()).push(a.last())
    }
}

/// The display form of one argument: unchanged when it holds no space and
/// no quote; in double quotes when it holds single quotes only; in single
/// quotes when it holds no single quote; else in single quotes with each
/// single quote escaped by a backslash.
pub open spec fn quoted(a: Seq<char>) -> Seq<char> {
    let has_single = a.contains('\'');
    let has_double = a.contains('"');
    let has_space = a.contains(' ');
    if !has_space && !has_single && !has_double {
        a
    } else if has_single && !has_double {
        seq!['"'] + a + seq!['"']
    } else if !has_single {
        seq!['\''] + a + seq!['\'']
    } else {
        seq!['\''] + escaped(a) + seq!['\'']
    }
}

/// The parts one after another, with `sep` between each two of them.
pub open spec fn joined(parts: Seq<Seq<char>>, sep: Seq<char>) -> Seq<char>
    decreases parts.len(),
{
    if parts.len() == 0 {
        Seq::empty()
    } else if parts.len() == 1 {
        parts[0]
    } else {
        joined(parts.drop_last(), sep) + sep + parts.last()
    }
}

/// The display form of a whole command line: each argument quoted, joined
/// by single spaces.
pub open spec fn quoted_cmdline(cmdline: Seq<String>) -> Seq<char> {
    joined(cmdline.map_values(|s: String| quoted(s@)), seq![' '])
}

/// `s` with a backslash before each single quote.
fn escape_single_quotes(s: &str) -> (r: String)
    ensures
        r@ == escaped(s@),
{
    let n = s.unicode_len();
    let mut r = String::new();
    let mut i: usize = 0;
    assert(s@.subrange(0, 0) =~= Seq::<char>::empty());
    while i < n
        invariant
            n == s@.len(),
            i <= n,
            r@ == escaped(s@.subrange(0, i as int)),
        decreases n - i,
    {
        let ghost before = s@.subrange(0, i as int);
        if s.get_char(i) == '\'' {
            let escape = "\\'";
            proof {
                reveal_strlit("\\'");
            }
            assert(escape@ =~= seq!['\\', '\'']);
            r.append(escape);
        } else {
            r.append(s.substring_char(i, i + 1));
        }
        i = i + 1;
        assert(s@.subrange(0, i as int).drop_last() =~= before);
        assert(s@.subrange(0, i as int).last() == s@[i - 1]);
        assert(r@ =~= escaped(s@.subrange(0, i as int)));
    }
    assert(s@.subrange(0, n as int) =~= s@);
    r
}

/// Relies on `itertools::join`: the `Display` output of each element (for a
/// `String`, its text) in order, with `sep` between each two of them.
#[verifier::external_body]
pub(crate) fn join_with(parts: &Vec<String>, sep: &str) -> (r: String)
    ensures
        r@ == joined(parts@.map_values(|p: String| p@), sep@),
{
    itertools::join(parts, sep)
}

/// Whether `c` occurs in `s`.
fn contains_char(s: &str, c: char) -> (r: bool)
    ensures
        r == s@.contains(c),
{
    let n = s.unicode_len();
    let mut i: usize = 0;
    while i < n
        invariant
            n == s@.len(),
            i <= n,
            forall|j: int| 0 <= j < i ==> s@[j] != c,
        decreases n - i,
    {
        if s.get_char(i) == c {
            return true;
        }
        i = i + 1;
    }
    false
}

/// Quotes one argument for display, so that spaces and quotes inside it stay
/// readable.
pub fn quote_argument(arg: &str) -> (r: String)
    ensures
        r@ == quoted(arg@),
{
    let has_single = contains_char(arg, '\'');
    let has_double = contains_char(arg, '"');
    let has_space = contains_char(arg, ' ');
    proof {
        reveal_strlit("\"");
        reveal_strlit("'");
    }
    if !has_space && !has_single && !has_double {
        arg.to_owned()
    } else if has_single && !has_double {
        let mut r = String::from_str("\"");
        r.append(arg);
        r.append("\"");
        assert(r@ =~= seq!['"'] + arg@ + seq!['"']);
        r
    } else if !has_single {
        let mut r = String::from_str("'");
        r.append(arg);
        r.append("'");
        assert(r@ =~= seq!['\''] + arg@ + seq!['\'']);
        r
    } else {
        let inner = escape_single_quotes(arg);
        let mut r = String::from_str("'");
        r.append(inner.as_str());
        r.append("'");
        assert(r@ =~= seq!['\''] + escaped(arg@) + seq!['\'']);
        r
    }
}

/// The display form of a command line: each argument quoted as
/// [`quote_argument`] does, joined by single spaces.
pub fn quote_cmdline(cmdline: &[String]) -> (r: String)
    ensures
        r@ == quoted_cmdline(cmdline@),
{
    let mut parts: Vec<String> = Vec::new();
    let mut i: usize = 0;
    while i < cmdline.len()
        invariant
            i <= cmdline@.len(),
            parts@.len() == i,
            forall|j: int| 0 <= j < i ==> #[trigger] parts@[j]@ == quoted(cmdline@[j]@),
        decreases cmdline@.len() - i,
    {
        let q = quote_argument(cmdline[i].as_str());
        parts.push(q);
        i = i + 1;
    }
    let r = join_with(&parts, " ");
    proof {
        reveal_strlit(" ");
        assert(" "@ =~= seq![' ']);
        assert(parts@.map_values(|p: String| p@) =~= cmdline@.map_values(|s: String| quoted(s@)));
    }
    r
}

} // verus!

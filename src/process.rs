use vstd::prelude::*;

verus! {

/// What the process snapshot holds of one process. An attribute that the operating
/// system did not reveal is `None`.
#[derive(Clone, Debug, PartialEq, Eq)]
pub struct ProcessInfo {
    pub name: String,
    pub cmd: Vec<String>,
    pub exe_path: Option<String>,
    pub status: String,
    pub user_id: Option<u32>,
    pub group_id: Option<u32>,
    pub effective_user_id: Option<u32>,
    pub effective_group_id: Option<u32>,
    pub environ: Vec<String>,
}

/// The snapshot of the process table: each process under its pid.
pub type ProcessTable = std::collections::HashMap<u32, ProcessInfo>;

/// The character of a decimal digit.
pub open spec fn digit_char(d: nat) -> char {
    if d == 0 { '0' }
    else if d == 1 { '1' }
    else if d == 2 { '2' }
    else if d == 3 { '3' }
    else if d == 4 { '4' }
    else if d == 5 { '5' }
    else if d == 6 { '6' }
    else if d == 7 { '7' }
    else if d == 8 { '8' }
    else { '9' }
}

/// The decimal form of a natural number, without leading zeros.
pub open spec fn decimal(n: nat) -> Seq<char>
    decreases n,
{
    if n < 10 {
        seq![digit_char(n)]
    } else {
        decimal(n / 10).push(digit_char(n % 10))
    }
}

/// The text shown in place of an attribute that is not known.
pub open spec fn unknown_text() -> Seq<char> {
    "-"@
}

/// An optional numeric identifier as shown: its decimal form, or `-`.
pub open spec fn id_text(id: Option<u32>) -> Seq<char> {
    match id {
        Some(n) => decimal(n as nat),
        None => unknown_text(),
    }
}

/// An optional text as shown: itself, or `-`.
pub open spec fn opt_text(t: Option<Seq<char>>) -> Seq<char> {
    match t {
        Some(s) => s,
        None => unknown_text(),
    }
}

/// The arguments of a command line joined by single spaces.
pub open spec fn joined(args: Seq<Seq<char>>) -> Seq<char>
    decreases args.len(),
{
    if args.len() == 0 {
        Seq::empty()
    } else if args.len() == 1 {
        args[0]
    } else {
        joined(args.drop_last()) + " "@ + args.last()
    }
}

/// The texts of a list of strings.
pub open spec fn texts(v: Seq<String>) -> Seq<Seq<char>> {
    v.map_values(|s: String| s@)
}

fn digit_str(d: u32) -> (r: &'static str)
    requires
        d < 10,
    ensures
        r@ == seq![digit_char(d as nat)],
{
    proof {
        reveal_strlit("0");
        reveal_strlit("1");
        reveal_strlit("2");
        reveal_strlit("3");
        reveal_strlit("4");
        reveal_strlit("5");
        reveal_strlit("6");
        reveal_strlit("7");
        reveal_strlit("8");
        reveal_strlit("9");
    }
    if d == 0 { "0" }
    else if d == 1 { "1" }
    else if d == 2 { "2" }
    else if d == 3 { "3" }
    else if d == 4 { "4" }
    else if d == 5 { "5" }
    else if d == 6 { "6" }
    else if d == 7 { "7" }
    else if d == 8 { "8" }
    else { "9" }
}

/// Appends the decimal form of `n` to `out`.
pub fn push_decimal(out: &mut String, n: u32)
    ensures
        final(out)@ == old(out)@ + decimal(n as nat),
    decreases n,
{
    if n < 10 {
        out.append(digit_str(n));
    } else {
        push_decimal(out, n / 10);
        out.append(digit_str(n % 10));
        assert(decimal(n as nat) == decimal((n / 10) as nat).push(digit_char((n % 10) as nat)));
        assert(final(out)@ =~= old(out)@ + decimal(n as nat));
    }
}

/// Renders an optional numeric identifier: its decimal form, or `-` when unknown.
pub fn render_id(id: Option<u32>) -> (r: String)
    ensures
        r@ == id_text(id),
{
    match id {
        Some(n) => {
            let mut s = String::new();
            push_decimal(&mut s, n);
            assert(s@ =~= decimal(n as nat));
            s
        },
        None => String::from_str("-"),
    }
}

/// Renders an optional text: itself, or `-` when unknown.
pub fn render_opt(t: &Option<String>) -> (r: String)
    ensures
        r@ == opt_text(
            match t {
                Some(s) => Some(s@),
                None => None,
            },
        ),
{
    match t {
        Some(s) => s.clone(),
        None => String::from_str("-"),
    }
}

/// Joins the arguments of a command line with single spaces.
pub fn join_args(args: &Vec<String>) -> (r: String)
    ensures
        r@ == joined(texts(args@)),
{
    let mut out = String::new();
    let mut i: usize = 0;
    while i < args.len()
        invariant
            i <= args.len(),
            out@ == joined(texts(args@.take(i as int))),
        decreases args.len() - i,
    {
        let ghost before = args@.take(i as int);
        let ghost after = args@.take(i as int + 1);
        assert(after.drop_last() =~= before);
        assert(texts(after).drop_last() =~= texts(before));
        if i > 0 {
            out.append(" ");
        }
        out.append(args[i].as_str());
        assert(texts(after).last() == args@[i as int]@);
        i = i + 1;
    }
    assert(args@.take(args@.len() as int) =~= args@);
    out
}

} // verus!

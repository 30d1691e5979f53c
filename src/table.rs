use vstd::prelude::*;
use crate::locate::views;
use crate::project::{DockerCompose, ProjectView};
use crate::status::status_label;

verus! {

/// The width of the title rule.
pub const RULE_WIDTH: usize = 33;

/// `n` copies of `s`.
pub open spec fn repeated(s: Seq<char>, n: nat) -> Seq<char>
    decreases n,
{
    if n == 0 {
        Seq::empty()
    } else {
        repeated(s, (n - 1) as nat) + s
    }
}

/// `s` followed by spaces up to `width` characters; `s` alone where it is
/// already as wide.
pub open spec fn padded(s: Seq<char>, width: nat) -> Seq<char> {
    if s.len() >= width {
        s
    } else {
        s + Seq::new((width - s.len()) as nat, |i: int| ' ')
    }
}

/// The character of a decimal digit.
pub open spec fn digit_char(d: nat) -> char {
    if d == 0 { '0' }
    else if d == 1 { '1' }
    else if d == 2 { '2' }
    else if d == 3 { '3' }
    else if d == 4 { '4' }
    else if d == 5 { '5' }
    else if d == 6 { '6' }
    else if d == 7 { '7' }
    else if d == 8 { '8' }
    else { '9' }
}

/// The decimal digits of `n`, without leading zeros.
pub open spec fn decimal(n: nat) -> Seq<char>
    decreases n,
{
    if n < 10 {
        seq![digit_char(n)]
    } else {
        decimal(n / 10).push(digit_char(n % 10))
    }
}

/// One line of the table: an index, a name and a state, in fixed-width
/// columns.
pub open spec fn table_line(index: Seq<char>, name: Seq<char>, state: Seq<char>) -> Seq<char> {
    padded(index, 5) + " "@ + padded(name, 20) + " "@ + padded(state, 6) + "\n"@
}

/// The title rule, ended by a line break.
pub open spec fn rule_line() -> Seq<char> {
    repeated("="@, RULE_WIDTH as nat) + "\n"@
}

/// The lines of the projects, numbered from zero.
pub open spec fn project_lines(ps: Seq<ProjectView>) -> Seq<char>
    decreases ps.len(),
{
    if ps.len() == 0 {
        Seq::empty()
    } else {
        project_lines(ps.drop_last()) + table_line(
            decimal((ps.len() - 1) as nat),
            ps.last().name,
            status_label(ps.last().status),
        )
    }
}

/// The table of the projects: a rule, the column titles, a rule, one line
/// per project and a closing rule.
pub open spec fn table_of(ps: Seq<ProjectView>) -> Seq<char> {
    rule_line() + table_line("Index"@, "Project"@, "Status"@) + rule_line() + project_lines(ps)
        + rule_line()
}

/// Appends `n` copies of `s` and a line break.
pub fn print_n(out: &mut String, s: &str, n: usize)
    ensures
        final(out)@ == old(out)@ + repeated(s@, n as nat) + "\n"@,
{
    let mut i: usize = 0;
    while i < n
        invariant
            i <= n,
            out@ == old(out)@ + repeated(s@, i as nat),
        decreases n - i,
    {
        out.append(s);
        i = i + 1;
        assert(repeated(s@, i as nat) == repeated(s@, (i - 1) as nat) + s@);
    }
    out.append("\n");
}

/// Appends `s`, then spaces up to `width` characters.
fn append_padded(out: &mut String, s: &str, width: usize)
    ensures
        final(out)@ == old(out)@ + padded(s@, width as nat),
{
    let len = s.unicode_len();
    out.append(s);
    let ghost start = out@;
    if len < width {
        let mut k: usize = len;
        while k < width
            invariant
                len <= k <= width,
                len == s@.len(),
                out@ == start + Seq::new((k - len) as nat, |i: int| ' '),
            decreases width - k,
        {
            out.append(" ");
            proof {
                reveal_strlit(" ");
            }
            assert(start + Seq::new((k + 1 - len) as nat, |i: int| ' ') =~= start + Seq::new(
                (k - len) as nat,
                |i: int| ' ',
            ) + " "@);
            k = k + 1;
        }
    } else {
        assert(start + Seq::new(0, |i: int| ' ') =~= start);
    }
    assert(old(out)@ + padded(s@, width as nat) =~= start + (if len < width {
        Seq::new((width - len) as nat, |i: int| ' ')
    } else {
        Seq::empty()
    }));
}

/// The text of a decimal digit.
fn digit_text(d: usize) -> (r: &'static str)
    requires
        d < 10,
    ensures
        r@ == seq![digit_char(d as nat)],
{
    proof {
        reveal_strlit("0");
        reveal_strlit("1");
        reveal_strlit("2");
        reveal_strlit("3");
        reveal_strlit("4");
        reveal_strlit("5");
        reveal_strlit("6");
        reveal_strlit("7");
        reveal_strlit("8");
        reveal_strlit("9");
    }
    let r = if d == 0 { "0" }
    else if d == 1 { "1" }
    else if d == 2 { "2" }
    else if d == 3 { "3" }
    else if d == 4 { "4" }
    else if d == 5 { "5" }
    else if d == 6 { "6" }
    else if d == 7 { "7" }
    else if d == 8 { "8" }
    else { "9" };
    assert(r@ =~= seq![digit_char(d as nat)]);
    r
}

/// The decimal digits of `n`.
pub fn decimal_text(n: usize) -> (r: String)
    ensures
        r@ == decimal(n as nat),
    decreases n,
{
    if n < 10 {
        String::from_str(digit_text(n))
    } else {
        let mut r = decimal_text(n / 10);
        r.append(digit_text(n % 10));
        assert(r@ =~= decimal(n as nat));
        r
    }
}

/// Appends one line of the table.
fn append_line(out: &mut String, index: &str, name: &str, state: &str)
    ensures
        final(out)@ == old(out)@ + table_line(index@, name@, state@),
{
    append_padded(out, index, 5);
    out.append(" ");
    append_padded(out, name, 20);
    out.append(" ");
    append_padded(out, state, 6);
    out.append("\n");
    assert(out@ =~= old(out)@ + table_line(index@, name@, state@));
}

/// The table of the projects, each under its index, name and state.
pub fn render_table(projects: &Vec<DockerCompose>) -> (r: String)
    ensures
        r@ == table_of(views(projects@)),
{
    let mut out = String::new();
    print_n(&mut out, "=", RULE_WIDTH);
    append_line(&mut out, "Index", "Project", "Status");
    print_n(&mut out, "=", RULE_WIDTH);
    let ghost head = out@;
    let mut i: usize = 0;
    while i < projects.len()
        invariant
            i <= projects@.len(),
            out@ == head + project_lines(views(projects@).subrange(0, i as int)),
        decreases projects.len() - i,
    {
        let p = &projects[i];
        let index = decimal_text(i);
        proof {
            let pre = views(projects@).subrange(0, i + 1);
            assert(pre.drop_last() =~= views(projects@).subrange(0, i as int));
            assert(pre.last() == p@);
        }
        append_line(&mut out, index.as_str(), p.docker_name.as_str(), p.status.label());
        i = i + 1;
    }
    assert(views(projects@).subrange(0, projects@.len() as int) =~= views(projects@));
    print_n(&mut out, "=", RULE_WIDTH);
    assert(out@ =~= table_of(views(projects@)));
    out
}

} // verus!

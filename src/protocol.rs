//! The line protocol spoken to the renderer over its standard input, and
//! the arguments the renderer is started with.

use vstd::prelude::*;

verus! {

/// The decimal digit for `d`.
pub open spec fn digit_char(d: nat) -> char {
    if d == 0 {
        '0'
    } else if d == 1 {
        '1'
    } else if d == 2 {
        '2'
    } else if d == 3 {
        '3'
    } else if d == 4 {
        '4'
    } else if d == 5 {
        '5'
    } else if d == 6 {
        '6'
    } else if d == 7 {
        '7'
    } else if d == 8 {
        '8'
    } else {
        '9'
    }
}

/// `n` written in decimal, without sign, padding or leading zeros.
pub open spec fn decimal(n: nat) -> Seq<char>
    decreases n,
{
    if n < 10 {
        seq![digit_char(n)]
    } else {
        decimal(n / 10).push(digit_char(n % 10))
    }
}

/// The line that sets the highlighted segment to `idx`.
pub open spec fn highlight_text(idx: nat) -> Seq<char> {
    "HIGHLIGHT "@ + decimal(idx) + "\n"@
}

/// The line that tells the renderer to stop.
pub open spec fn quit_text() -> Seq<char> {
    "QUIT\n"@
}

/// The argument given for one item: its icon, or the fallback marker.
pub open spec fn icon_arg(icon: Option<String>) -> Seq<char> {
    match icon {
        Some(path) => path@,
        None => "default"@,
    }
}

/// The renderer's arguments: the segment count, then one per item.
pub open spec fn renderer_args_spec(segments: nat, icons: Seq<Option<String>>) -> Seq<Seq<char>> {
    seq![decimal(segments)] + icons.map_values(|icon: Option<String>| icon_arg(icon))
}

/// Relies on `ToString::to_string` for `usize`, which writes the number
/// through `Display`: its decimal digits, with no sign or padding.
#[verifier::external_body]
fn decimal_string(n: usize) -> (r: String)
    ensures
        r@ == decimal(n as nat),
{
    n.to_string()
}

/// The line `HIGHLIGHT <idx>`, newline included.
pub fn highlight_line(idx: usize) -> (r: String)
    ensures
        r@ == highlight_text(idx as nat),
{
    let mut line = String::from_str("HIGHLIGHT ");
    let digits = decimal_string(idx);
    line.append(digits.as_str());
    line.append("\n");
    line
}

/// The line `QUIT`, newline included.
pub fn quit_line() -> (r: String)
    ensures
        r@ == quit_text(),
{
    String::from_str("QUIT\n")
}

/// The arguments to start the renderer with: the segment count, then for
/// each item its icon or the literal `default`.
pub fn renderer_args(segments: usize, icons: &Vec<Option<String>>) -> (r: Vec<String>)
    ensures
        r@.map_values(|a: String| a@) == renderer_args_spec(segments as nat, icons@),
{
    let mut args: Vec<String> = Vec::new();
    args.push(decimal_string(segments));
    let mut i: usize = 0;
    while i < icons.len()
        invariant
            0 <= i <= icons@.len(),
            args@.len() == i + 1,
            args@[0]@ == decimal(segments as nat),
            forall|j: int| 0 <= j < i ==> #[trigger] args@[j + 1]@ == icon_arg(icons@[j]),
        decreases icons@.len() - i,
    {
        let arg = match &icons[i] {
            Some(path) => path.clone(),
            None => String::from_str("default"),
        };
        args.push(arg);
        i = i + 1;
    }
    let ghost view = args@.map_values(|a: String| a@);
    let ghost want = renderer_args_spec(segments as nat, icons@);
    assert(view =~= want) by {
        assert forall|j: int| 0 <= j < view.len() implies view[j] == want[j] by {
            if j > 0 {
                assert(args@[(j - 1) + 1]@ == icon_arg(icons@[j - 1]));
            }
        }
    }
    args
}

} // verus!

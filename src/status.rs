use vstd::prelude::*;

use crate::click_toggle::ClickToggle;

verus! {

/// Clears the rest of the terminal line before a status line.
pub const OPEN_ESCAPE: &'static str = "\x1b[0K";

/// Moves the cursor back to the start of the status line.
pub const CLOSE_ESCAPE: &'static str = "\x1b[1F";

/// The terminal bell, sounded on each change of the logical state.
pub const ANSI_BEEP: &'static str = "\x07";

/// Number of key codes that input-linux can name (`KEY_CNT`).
pub const KEY_CODE_COUNT: u16 = 0x300;

/// The name that input-linux gives to the key with code `code`.
pub uninterp spec fn key_name_of(code: u16) -> Seq<char>;

pub open spec fn digit_char(d: nat) -> char {
    seq!['0', '1', '2', '3', '4', '5', '6', '7', '8', '9'][d as int]
}

/// The decimal digits of `n`, most significant first, without leading zeros.
pub open spec fn decimal(n: nat) -> Seq<char>
    decreases n,
{
    if n < 10 {
        seq![digit_char(n)]
    } else {
        decimal(n / 10).push(digit_char(n % 10))
    }
}

/// The line that reports a control code: its label, its decimal value and, when
/// it is known, the name of the key.
pub open spec fn spec_code_line(label: Seq<char>, code: u16, name: Option<Seq<char>>) -> Seq<char> {
    let head = label + ": "@ + decimal(code as nat);
    match name {
        Some(n) => head + ", key: "@ + n,
        None => head,
    }
}

/// The key name of `code`, where input-linux has one.
pub open spec fn spec_key_name(code: u16) -> Option<Seq<char>> {
    if code < KEY_CODE_COUNT {
        Some(key_name_of(code))
    } else {
        None
    }
}

/// The status line for a logical state.
pub open spec fn spec_active_line(toggle: ClickToggle) -> Seq<char> {
    "Active: "@ + toggle.label() + "\n"@
}

/// Text as written to standard output: on a terminal it is framed so that the
/// next status line overwrites it.
pub open spec fn spec_reprint_text(text: Seq<char>, terminal: bool) -> Seq<char> {
    if terminal {
        "\x1b[0K"@ + text + "\x1b[1F"@
    } else {
        text
    }
}

/// Relies on input_linux::Key::from_code, which succeeds exactly for the codes
/// below `KEY_CNT`, and on the `Debug` name of the key it returns.
#[verifier::external_body]
fn key_name(code: u16) -> (r: Option<String>)
    ensures
        r is Some <==> code < KEY_CODE_COUNT,
        r matches Some(s) ==> s@ == key_name_of(code),
{
    match input_linux::Key::from_code(code) {
        Ok(key) => Some(format!("{:?}", key)),
        Err(_) => None,
    }
}

fn digit_str(d: u16) -> (r: &'static str)
    requires
        d < 10,
    ensures
        r@ == seq![digit_char(d as nat)],
{
    proof {
        reveal_strlit("0");
        reveal_strlit("1");
        reveal_strlit("2");
        reveal_strlit("3");
        reveal_strlit("4");
        reveal_strlit("5");
        reveal_strlit("6");
        reveal_strlit("7");
        reveal_strlit("8");
        reveal_strlit("9");
    }
    let r = match d {
        0 => "0",
        1 => "1",
        2 => "2",
        3 => "3",
        4 => "4",
        5 => "5",
        6 => "6",
        7 => "7",
        8 => "8",
        _ => "9",
    };
    assert(r@ =~= seq![digit_char(d as nat)]);
    r
}

/// Appends the decimal digits of `n` to `s`.
fn push_decimal(s: &mut String, n: u16)
    ensures
        final(s)@ == old(s)@ + decimal(n as nat),
    decreases n,
{
    if n >= 10 {
        push_decimal(s, n / 10);
    }
    s.append(digit_str(n % 10));
    proof {
        if n >= 10 {
            assert(decimal(n as nat) == decimal((n / 10) as nat).push(digit_char((n % 10) as nat)));
        }
    }
    assert(s@ =~= old(s)@ + decimal(n as nat));
}

/// The decimal representation of `n`.
pub fn decimal_string(n: u16) -> (r: String)
    ensures
        r@ == decimal(n as nat),
{
    let mut s = String::new();
    push_decimal(&mut s, n);
    assert(s@ =~= decimal(n as nat));
    s
}

/// The line that reports `code` under `label`, given the key name that goes with
/// it, if any.
pub fn code_line(label: &str, code: u16, name: Option<String>) -> (r: String)
    ensures
        r@ == spec_code_line(label@, code, match name {
            Some(n) => Some(n@),
            None => None,
        }),
{
    let mut s = label.to_string();
    s.append(": ");
    let digits = decimal_string(code);
    s.append(digits.as_str());
    match name {
        Some(n) => {
            s.append(", key: ");
            s.append(n.as_str());
        },
        None => {},
    }
    proof {
        reveal_strlit(": ");
        reveal_strlit(", key: ");
    }
    assert(s@ =~= spec_code_line(label@, code, match name {
        Some(n) => Some(n@),
        None => None,
    }));
    s
}

/// The line that reports `code` under `label`, with the key's name where
/// input-linux knows one.
pub fn describe_code(label: &str, code: u16) -> (r: String)
    ensures
        r@ == spec_code_line(label@, code, spec_key_name(code)),
{
    let name = key_name(code);
    code_line(label, code, name)
}

/// The status line for the logical state `toggle`.
pub fn active_line(toggle: &ClickToggle) -> (r: String)
    ensures
        r@ == spec_active_line(*toggle),
{
    let mut s = "Active: ".to_string();
    let label = toggle.render();
    s.append(label.as_str());
    s.append("\n");
    assert(s@ =~= spec_active_line(*toggle));
    s
}

/// Frames `text` for a terminal when `terminal` holds, and leaves it as it is
/// otherwise.
pub fn reprint_text(text: &str, terminal: bool) -> (r: String)
    ensures
        r@ == spec_reprint_text(text@, terminal),
{
    if terminal {
        let mut s = OPEN_ESCAPE.to_string();
        s.append(text);
        s.append(CLOSE_ESCAPE);
        proof {
            reveal_strlit("\x1b[0K");
            reveal_strlit("\x1b[1F");
        }
        assert(s@ =~= spec_reprint_text(text@, terminal));
        s
    } else {
        text.to_string()
    }
}

} // verus!

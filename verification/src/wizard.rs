//! What the answers typed into the setup wizard mean.

use crate::text::{
    chars_of, contains, contains_text, opt_text, parse_unsigned, parsed_unsigned, texts, trim,
    trimmed,
};
use vstd::prelude::*;

verus! {

/// The typed text without surrounding whitespace, or `default` if nothing
/// was typed.
pub fn answer_or_default(input: &str, default: &str) -> (r: String)
    ensures
        r@ == (if trimmed(input@).len() == 0 {
            default@
        } else {
            trimmed(input@)
        }),
{
    let t = trim(input);
    if t.as_str().unicode_len() == 0 {
        String::from_str(default)
    } else {
        t
    }
}

/// The typed text without surrounding whitespace, or nothing if nothing
/// was typed.
pub fn optional_answer(input: &str) -> (r: Option<String>)
    ensures
        opt_text(r) == (if trimmed(input@).len() == 0 {
            None
        } else {
            Some(trimmed(input@))
        }),
{
    let t = trim(input);
    if t.as_str().unicode_len() == 0 {
        None
    } else {
        Some(t)
    }
}

/// `c` with an ASCII capital letter turned into its small letter.
pub open spec fn ascii_lower(c: char) -> char {
    if 0x41 <= c as u32 <= 0x5A {
        ((c as u32 + 32) as u8) as char
    } else {
        c
    }
}

/// Whether two texts are equal but for the case of ASCII letters.
pub open spec fn same_ignoring_case(a: Seq<char>, b: Seq<char>) -> bool {
    &&& a.len() == b.len()
    &&& forall|i: int| 0 <= i < a.len() ==> ascii_lower(#[trigger] a[i]) == ascii_lower(b[i])
}

fn lower_char(c: char) -> (r: char)
    ensures
        r == ascii_lower(c),
{
    let u: u32 = c as u32;
    if 0x41 <= u && u <= 0x5A {
        ((u + 32) as u8) as char
    } else {
        c
    }
}

/// Whether two texts are equal but for the case of ASCII letters.
pub fn equals_ignoring_case(a: &str, b: &str) -> (r: bool)
    ensures
        r == same_ignoring_case(a@, b@),
{
    let x = chars_of(a);
    let y = chars_of(b);
    if x.len() != y.len() {
        return false;
    }
    let mut i: usize = 0;
    while i < x.len()
        invariant
            i <= x.len(),
            x.len() == y.len(),
            x@ == a@,
            y@ == b@,
            forall|k: int| 0 <= k < i ==> ascii_lower(#[trigger] x@[k]) == ascii_lower(y@[k]),
        decreases x.len() - i,
    {
        if lower_char(x[i]) != lower_char(y[i]) {
            return false;
        }
        i += 1;
    }
    true
}

/// The first of the choices, at or after index `from`, that equals
/// `answer` but for the case of ASCII letters.
pub open spec fn choice_named(choices: Seq<Seq<char>>, answer: Seq<char>, from: int) -> Option<
    Seq<char>,
>
    decreases choices.len() - from,
{
    if from < 0 || from >= choices.len() {
        None
    } else if same_ignoring_case(choices[from], answer) {
        Some(choices[from])
    } else {
        choice_named(choices, answer, from + 1)
    }
}

/// What a typed choice means: nothing typed means the empty choice; a
/// number from one to the number of choices means the choice with that
/// number; else the choice that the text names, whatever its case. None
/// if the question has to be asked again.
pub open spec fn choice_of(input: Seq<char>, choices: Seq<Seq<char>>) -> Option<Seq<char>> {
    let answer = trimmed(input);
    if answer.len() == 0 {
        Some(Seq::<char>::empty())
    } else {
        match parsed_unsigned(answer, usize::MAX as nat) {
            Some(n) => if 0 < n <= choices.len() {
                Some(choices[n - 1])
            } else {
                choice_named(choices, answer, 0)
            },
            None => choice_named(choices, answer, 0),
        }
    }
}

/// What a typed choice among `choices` means.
pub fn interpret_choice(input: &str, choices: &Vec<String>) -> (r: Option<String>)
    ensures
        opt_text(r) == choice_of(input@, texts(choices@)),
{
    let answer = trim(input);
    if answer.as_str().unicode_len() == 0 {
        return Some(String::new());
    }
    match parse_unsigned(answer.as_str(), usize::MAX as u64) {
        Some(n) => {
            if 0 < n && n <= choices.len() as u64 {
                let index = (n - 1) as usize;
                assert(texts(choices@)[index as int] == choices@[index as int]@);
                return Some(choices[index].clone());
            }
        },
        None => {},
    }
    assert(choice_of(input@, texts(choices@)) == choice_named(texts(choices@), answer@, 0));
    let mut i: usize = 0;
    while i < choices.len()
        invariant
            i <= choices.len(),
            choice_of(input@, texts(choices@)) == choice_named(texts(choices@), answer@, 0),
            choice_named(texts(choices@), answer@, 0) == choice_named(
                texts(choices@),
                answer@,
                i as int,
            ),
        decreases choices.len() - i,
    {
        assert(texts(choices@)[i as int] == choices@[i as int]@);
        if equals_ignoring_case(choices[i].as_str(), answer.as_str()) {
            return Some(choices[i].clone());
        }
        i += 1;
    }
    None
}

/// The editor to open: the one that the environment names, first under
/// `EDITOR`, then under `VISUAL`; else `nano` on macOS and `vi` elsewhere.
pub fn choose_editor(editor: Option<String>, visual: Option<String>, on_macos: bool) -> (r: String)
    ensures
        r@ == (match (opt_text(editor), opt_text(visual)) {
            (Some(e), _) => e,
            (None, Some(v)) => v,
            (None, None) => if on_macos {
                "nano"@
            } else {
                "vi"@
            },
        }),
{
    match editor {
        Some(e) => e,
        None => match visual {
            Some(v) => v,
            None => if on_macos {
                String::from_str("nano")
            } else {
                String::from_str("vi")
            },
        },
    }
}

/// The start-up file of the user's shell: that of zsh where the shell is
/// one, else that of bash.
pub fn shell_rc_name(shell: &str) -> (r: &'static str)
    ensures
        r@ == (if contains_text(shell@, "zsh"@) {
            ".zshrc"@
        } else {
            ".bashrc"@
        }),
{
    if contains(shell, "zsh") {
        ".zshrc"
    } else {
        ".bashrc"
    }
}

} // verus!

//! The configuration model and its parser.
//!
//! Configuration is line-oriented `key = value` text. The spec functions
//! here give the whole grammar a mathematical meaning — which lines are
//! accepted, what each accepted line does to the configuration, and which
//! error the first offending line produces — and `parse_config` is proved
//! to compute exactly that.

use vstd::prelude::*;
use vstd::slice::{slice_subrange, slice_to_vec};
use crate::bytes::{eq_lit, find_byte, find_in_slice, lit_bytes, lower, rfind_byte, rfind_in_slice,
    trim, trim_slice};
use crate::hotkey::{key_of, modifier_of, Modifiers, ParseModifierError, ParseVirtualKeyError,
    VirtualKey};

verus! {

/// A key with the modifiers that must be held for it.
#[derive(Clone, Copy, Debug, PartialEq, Eq, Structural)]
pub struct Hotkey {
    pub key: VirtualKey,
    pub modifiers: Modifiers,
}

/// The reloadable settings of the utility. A missing capacity means the
/// history is unbounded; a missing keybinding leaves that command without
/// a hotkey.
#[derive(Clone, Copy, Debug, PartialEq, Eq, Structural)]
pub struct Config {
    pub max_stack_size: Option<usize>,
    pub show_tray_icon: bool,
    pub pop_keybinding: Option<Hotkey>,
    pub clear_keybinding: Option<Hotkey>,
    pub swap_keybinding: Option<Hotkey>,
    pub prevent_duplicate_push: bool,
}

/// The settings used when no configuration file says otherwise.
pub open spec fn default_config() -> Config {
    Config {
        max_stack_size: Some(100usize),
        show_tray_icon: true,
        pop_keybinding: Some(
            Hotkey {
                key: VirtualKey::C,
                modifiers: Modifiers { bits: crate::hotkey::MOD_CONTROL | crate::hotkey::MOD_SHIFT },
            },
        ),
        clear_keybinding: None,
        swap_keybinding: None,
        prevent_duplicate_push: false,
    }
}

impl Default for Config {
    /// The built-in settings: capacity 100, a tray icon, pop bound to
    /// Control+Shift+C, no other hotkeys, duplicates kept.
    fn default() -> (c: Config)
        ensures
            c == default_config(),
    {
        Config {
            max_stack_size: Some(100),
            show_tray_icon: true,
            pop_keybinding: Some(
                Hotkey {
                    key: VirtualKey::C,
                    modifiers: Modifiers {
                        bits: crate::hotkey::MOD_CONTROL | crate::hotkey::MOD_SHIFT,
                    },
                },
            ),
            clear_keybinding: None,
            swap_keybinding: None,
            prevent_duplicate_push: false,
        }
    }
}

/// What is wrong with one configuration line. Token-carrying variants hold
/// the bytes of the offending token (lower-cased where the parser compares
/// case-insensitively, as it does for modifier and key names).
#[derive(Debug)]
pub enum LineError {
    Malformed,
    UnknownOption(Vec<u8>),
    UnknownModifier(Vec<u8>),
    UnknownKey(Vec<u8>),
    ExpectedBool(Vec<u8>),
    ExpectedInt(Vec<u8>),
    ModifierWithNoKey,
}

/// The spec-level image of `LineError`, with token payloads as byte
/// sequences.
pub enum LineErrorView {
    Malformed,
    UnknownOption(Seq<u8>),
    UnknownModifier(Seq<u8>),
    UnknownKey(Seq<u8>),
    ExpectedBool(Seq<u8>),
    ExpectedInt(Seq<u8>),
    ModifierWithNoKey,
}

impl View for LineError {
    type V = LineErrorView;

    open spec fn view(&self) -> LineErrorView {
        match self {
            LineError::Malformed => LineErrorView::Malformed,
            LineError::UnknownOption(t) => LineErrorView::UnknownOption(t@),
            LineError::UnknownModifier(t) => LineErrorView::UnknownModifier(t@),
            LineError::UnknownKey(t) => LineErrorView::UnknownKey(t@),
            LineError::ExpectedBool(t) => LineErrorView::ExpectedBool(t@),
            LineError::ExpectedInt(t) => LineErrorView::ExpectedInt(t@),
            LineError::ModifierWithNoKey => LineErrorView::ModifierWithNoKey,
        }
    }
}

/// A configuration that could not be parsed: the line error together with
/// the zero-based index of the line it came from.
#[derive(Debug)]
pub enum ParseError {
    Line(LineError, usize),
}

/// ASCII decimal digit.
pub open spec fn dec_digit(c: u8) -> bool {
    48 <= c <= 57
}

/// Whether every byte of the string is a decimal digit.
pub open spec fn all_digits(s: Seq<u8>) -> bool {
    forall|i: int| 0 <= i < s.len() ==> dec_digit(s[i])
}

/// The value of a digit string read in base ten.
pub open spec fn dec_val(s: Seq<u8>) -> int
    decreases s.len(),
{
    if s.len() == 0 {
        0
    } else {
        dec_val(s.drop_last()) * 10 + (s.last() - 48)
    }
}

/// The digit part of an unsigned decimal literal: everything after an
/// optional leading plus sign.
pub open spec fn unsigned_body(s: Seq<u8>) -> Seq<u8> {
    if s.len() > 0 && s[0] == 43 {
        s.drop_first()
    } else {
        s
    }
}

/// Whether the token is a decimal literal that fits in `usize`.
pub open spec fn parses_as_usize(s: Seq<u8>) -> bool {
    let d = unsigned_body(s);
    d.len() > 0 && all_digits(d) && dec_val(d) <= usize::MAX
}

proof fn lemma_dec_val_nonneg(s: Seq<u8>)
    requires
        all_digits(s),
    ensures
        dec_val(s) >= 0,
    decreases s.len(),
{
    if s.len() > 0 {
        assert(all_digits(s.drop_last()));
        lemma_dec_val_nonneg(s.drop_last());
    }
}

proof fn lemma_dec_val_prefix(s: Seq<u8>, k: int)
    requires
        all_digits(s),
        0 <= k <= s.len(),
    ensures
        dec_val(s.take(k)) <= dec_val(s),
    decreases s.len(),
{
    if k == s.len() {
        assert(s.take(k) =~= s);
    } else {
        assert(all_digits(s.drop_last()));
        lemma_dec_val_nonneg(s.drop_last());
        lemma_dec_val_prefix(s.drop_last(), k);
        assert(s.drop_last().take(k) =~= s.take(k));
    }
}

/// Read an unsigned decimal token; `None` when it is not one, or does not
/// fit in `usize`.
fn parse_usize(s: &[u8]) -> (r: Option<usize>)
    ensures
        match r {
            Some(v) => parses_as_usize(s@) && v == dec_val(unsigned_body(s@)),
            None => !parses_as_usize(s@),
        },
{
    let n = s.len();
    let start: usize = if n > 0 && s[0] == 43 {
        1
    } else {
        0
    };
    proof {
        assert(unsigned_body(s@) =~= s@.skip(start as int));
    }
    if start == n {
        return None;
    }
    let mut acc: u128 = 0;
    let mut i: usize = start;
    while i < n
        invariant
            start <= 1,
            start <= i <= n,
            n == s@.len(),
            start == 1 ==> n > 0 && s@[0] == 43,
            start == 0 ==> !(n > 0 && s@[0] == 43),
            acc == dec_val(s@.subrange(start as int, i as int)),
            acc <= usize::MAX,
            forall|j: int| start <= j < i ==> dec_digit(s@[j]),
        decreases n - i,
    {
        let c = s[i];
        if c < 48 || c > 57 {
            proof {
                let d = unsigned_body(s@);
                assert(d =~= s@.skip(start as int));
                assert(d[i - start] == s@[i as int]);
                assert(!all_digits(d));
            }
            return None;
        }
        let dc = (c - 48) as u128;
        let next = acc * 10 + dc;
        proof {
            let p = s@.subrange(start as int, i as int + 1);
            assert(p.drop_last() =~= s@.subrange(start as int, i as int));
            assert(dec_val(p) == acc * 10 + dc);
        }
        if next > usize::MAX as u128 {
            proof {
                let d = unsigned_body(s@);
                assert(d =~= s@.skip(start as int));
                if parses_as_usize(s@) {
                    let p = s@.subrange(start as int, i as int + 1);
                    assert(d.take(i + 1 - start) =~= p);
                    lemma_dec_val_prefix(d, i + 1 - start);
                    assert(false);
                }
            }
            return None;
        }
        acc = next;
        i += 1;
    }
    proof {
        let d = unsigned_body(s@);
        assert(d =~= s@.subrange(start as int, n as int));
        assert(all_digits(d));
    }
    Some(acc as usize)
}

/// The modifier bits named by the text before a hotkey's final plus sign,
/// reading the plus-separated tokens from the last to the first as the
/// parser does; or the error for the first unrecognized token met that way.
pub open spec fn mods_of(p: Seq<u8>) -> Result<u32, LineErrorView>
    decreases p.len(),
    via mods_of_decreases
{
    let j = rfind_byte(p, 43);
    let tok = trim(p.skip(j + 1));
    match modifier_of(lower(tok)) {
        None => Err(LineErrorView::UnknownModifier(lower(tok))),
        Some(m) => if j == -1 {
            Ok(m)
        } else {
            match mods_of(p.take(j)) {
                Err(e) => Err(e),
                Ok(rest) => Ok(rest | m),
            }
        },
    }
}

#[via_fn]
proof fn mods_of_decreases(p: Seq<u8>) {
    crate::bytes::lemma_rfind_byte_range(p, 43);
}

/// The outcome of reading a hotkey expression: `None` for the literal
/// disabling value, a key with its modifiers otherwise, or the error the
/// expression produces.
pub open spec fn hotkey_of(s: Seq<u8>) -> Result<Option<Hotkey>, LineErrorView> {
    let j = rfind_byte(s, 43);
    let raw_key = trim(s.skip(j + 1));
    if raw_key == lit_bytes("None") {
        if j >= 0 {
            Err(LineErrorView::ModifierWithNoKey)
        } else {
            Ok(None)
        }
    } else {
        match key_of(lower(raw_key)) {
            None => Err(LineErrorView::UnknownKey(lower(raw_key))),
            Some(k) => if j == -1 {
                Ok(Some(Hotkey { key: k, modifiers: Modifiers { bits: 0 } }))
            } else {
                match mods_of(s.take(j)) {
                    Err(e) => Err(e),
                    Ok(bits) => Ok(Some(Hotkey { key: k, modifiers: Modifiers { bits } })),
                }
            },
        }
    }
}

fn parse_mods(p: &[u8]) -> (r: Result<Modifiers, LineError>)
    ensures
        match r {
            Ok(m) => mods_of(p@) == Ok::<u32, LineErrorView>(m.bits),
            Err(e) => mods_of(p@) == Err::<u32, LineErrorView>(e@),
        },
    decreases p@.len(),
{
    let n = p.len();
    let (before, tok_raw): (&[u8], &[u8]) = match rfind_in_slice(p, 43) {
        Some(j) => (slice_subrange(p, 0, j), slice_subrange(p, j + 1, n)),
        None => (slice_subrange(p, 0, 0), p),
    };
    proof {
        let j = rfind_byte(p@, 43);
        assert(tok_raw@ =~= p@.skip(j + 1));
    }
    let tok = trim_slice(tok_raw);
    match Modifiers::parse(tok) {
        Err(ParseModifierError::UnknownModifier(got)) => Err(LineError::UnknownModifier(got)),
        Ok(m) => {
            match rfind_in_slice(p, 43) {
                None => Ok(m),
                Some(_) => {
                    proof {
                        assert(before@ =~= p@.take(rfind_byte(p@, 43)));
                    }
                    match parse_mods(before) {
                        Err(e) => Err(e),
                        Ok(rest) => Ok(rest.union(m)),
                    }
                },
            }
        },
    }
}

/// Read a hotkey expression: zero or more modifier names joined by plus
/// signs, then a key name, or the literal disabling value.
pub fn parse_hotkey(hotkey: &[u8]) -> (r: Result<Option<Hotkey>, LineError>)
    ensures
        match r {
            Ok(h) => hotkey_of(hotkey@) == Ok::<Option<Hotkey>, LineErrorView>(h),
            Err(e) => hotkey_of(hotkey@) == Err::<Option<Hotkey>, LineErrorView>(e@),
        },
{
    let total = hotkey.len();
    let plus = rfind_in_slice(hotkey, 43);
    let key_raw: &[u8] = match plus {
        Some(j) => slice_subrange(hotkey, j + 1, total),
        None => hotkey,
    };
    proof {
        assert(key_raw@ =~= hotkey@.skip(rfind_byte(hotkey@, 43) + 1));
    }
    let raw_key = trim_slice(key_raw);
    if eq_lit(raw_key, "None") {
        return match plus {
            Some(_) => Err(LineError::ModifierWithNoKey),
            None => Ok(None),
        };
    }
    match VirtualKey::parse(raw_key) {
        Err(ParseVirtualKeyError::UnknownKey(got)) => Err(LineError::UnknownKey(got)),
        Ok(k) => {
            match plus {
                None => Ok(Some(Hotkey { key: k, modifiers: Modifiers::empty() })),
                Some(j) => {
                    let before = slice_subrange(hotkey, 0, j);
                    proof {
                        assert(before@ =~= hotkey@.take(rfind_byte(hotkey@, 43)));
                    }
                    match parse_mods(before) {
                        Err(e) => Err(e),
                        Ok(m) => Ok(Some(Hotkey { key: k, modifiers: m })),
                    }
                },
            }
        },
    }
}

/// What one configuration line does: a blank line changes nothing, a
/// recognized `key = value` line replaces one setting, and anything else
/// is the given error.
pub open spec fn line_outcome(cfg: Config, line: Seq<u8>) -> Result<Config, LineErrorView> {
    let t = trim(line);
    if t.len() == 0 {
        Ok(cfg)
    } else {
        let i = find_byte(t, 61);
        if i == -1 || find_byte(t.skip(i + 1), 61) != -1 {
            Err(LineErrorView::Malformed)
        } else {
            let key = trim(t.take(i));
            let val = trim(t.skip(i + 1));
            if key == lit_bytes("max_stack_size") {
                if val == lit_bytes("None") {
                    Ok(Config { max_stack_size: None, ..cfg })
                } else if parses_as_usize(val) {
                    Ok(Config { max_stack_size: Some(dec_val(unsigned_body(val)) as usize), ..cfg })
                } else {
                    Err(LineErrorView::ExpectedInt(val))
                }
            } else if key == lit_bytes("show_tray_icon") {
                if val == lit_bytes("true") {
                    Ok(Config { show_tray_icon: true, ..cfg })
                } else if val == lit_bytes("false") {
                    Ok(Config { show_tray_icon: false, ..cfg })
                } else {
                    Err(LineErrorView::ExpectedBool(val))
                }
            } else if key == lit_bytes("prevent_duplicate_push") {
                if val == lit_bytes("true") {
                    Ok(Config { prevent_duplicate_push: true, ..cfg })
                } else if val == lit_bytes("false") {
                    Ok(Config { prevent_duplicate_push: false, ..cfg })
                } else {
                    Err(LineErrorView::ExpectedBool(val))
                }
            } else if key == lit_bytes("pop_keybinding") {
                match hotkey_of(val) {
                    Ok(b) => Ok(Config { pop_keybinding: b, ..cfg }),
                    Err(e) => Err(e),
                }
            } else if key == lit_bytes("clear_keybinding") {
                match hotkey_of(val) {
                    Ok(b) => Ok(Config { clear_keybinding: b, ..cfg }),
                    Err(e) => Err(e),
                }
            } else if key == lit_bytes("swap_keybinding") {
                match hotkey_of(val) {
                    Ok(b) => Ok(Config { swap_keybinding: b, ..cfg }),
                    Err(e) => Err(e),
                }
            } else {
                Err(LineErrorView::UnknownOption(key))
            }
        }
    }
}

/// The configuration after the remaining input, starting from `cfg` with
/// the next line carrying number `lineno`; or the first error with the
/// number of the line it came from.
pub open spec fn config_outcome_from(cfg: Config, s: Seq<u8>, lineno: int) -> Result<
    Config,
    (LineErrorView, int),
>
    decreases s.len(),
    via config_outcome_from_decreases
{
    let j = find_byte(s, 10);
    if j == -1 {
        match line_outcome(cfg, s) {
            Ok(c) => Ok(c),
            Err(e) => Err((e, lineno)),
        }
    } else {
        match line_outcome(cfg, s.take(j)) {
            Err(e) => Err((e, lineno)),
            Ok(c) => config_outcome_from(c, s.skip(j + 1), lineno + 1),
        }
    }
}

#[via_fn]
proof fn config_outcome_from_decreases(cfg: Config, s: Seq<u8>, lineno: int) {
    crate::bytes::lemma_find_byte_range(s, 10);
}

/// The configuration named by the whole input, starting from the default
/// settings; or the first error with its zero-based line number.
pub open spec fn config_outcome(s: Seq<u8>) -> Result<Config, (LineErrorView, int)> {
    config_outcome_from(default_config(), s, 0)
}

fn line_apply(cfg: Config, line: &[u8]) -> (r: Result<Config, LineError>)
    ensures
        match r {
            Ok(c) => line_outcome(cfg, line@) == Ok::<Config, LineErrorView>(c),
            Err(e) => line_outcome(cfg, line@) == Err::<Config, LineErrorView>(e@),
        },
{
    let t = trim_slice(line);
    if t.len() == 0 {
        return Ok(cfg);
    }
    let i = match find_in_slice(t, 61) {
        None => {
            return Err(LineError::Malformed);
        },
        Some(i) => i,
    };
    let after = slice_subrange(t, i + 1, t.len());
    proof {
        assert(after@ =~= trim(line@).skip(i + 1));
    }
    if find_in_slice(after, 61).is_some() {
        return Err(LineError::Malformed);
    }
    let key_raw = slice_subrange(t, 0, i);
    proof {
        assert(key_raw@ =~= trim(line@).take(i as int));
    }
    let key = trim_slice(key_raw);
    let val = trim_slice(after);
    if eq_lit(key, "max_stack_size") {
        if eq_lit(val, "None") {
            Ok(Config { max_stack_size: None, ..cfg })
        } else {
            match parse_usize(val) {
                Some(v) => Ok(Config { max_stack_size: Some(v), ..cfg }),
                None => Err(LineError::ExpectedInt(slice_to_vec(val))),
            }
        }
    } else if eq_lit(key, "show_tray_icon") {
        if eq_lit(val, "true") {
            Ok(Config { show_tray_icon: true, ..cfg })
        } else if eq_lit(val, "false") {
            Ok(Config { show_tray_icon: false, ..cfg })
        } else {
            Err(LineError::ExpectedBool(slice_to_vec(val)))
        }
    } else if eq_lit(key, "prevent_duplicate_push") {
        if eq_lit(val, "true") {
            Ok(Config { prevent_duplicate_push: true, ..cfg })
        } else if eq_lit(val, "false") {
            Ok(Config { prevent_duplicate_push: false, ..cfg })
        } else {
            Err(LineError::ExpectedBool(slice_to_vec(val)))
        }
    } else if eq_lit(key, "pop_keybinding") {
        match parse_hotkey(val) {
            Ok(b) => Ok(Config { pop_keybinding: b, ..cfg }),
            Err(e) => Err(e),
        }
    } else if eq_lit(key, "clear_keybinding") {
        match parse_hotkey(val) {
            Ok(b) => Ok(Config { clear_keybinding: b, ..cfg }),
            Err(e) => Err(e),
        }
    } else if eq_lit(key, "swap_keybinding") {
        match parse_hotkey(val) {
            Ok(b) => Ok(Config { swap_keybinding: b, ..cfg }),
            Err(e) => Err(e),
        }
    } else {
        Err(LineError::UnknownOption(slice_to_vec(key)))
    }
}

/// Read a whole configuration text. Unknown keys, malformed lines and
/// unknown tokens are reported with the zero-based number of the line
/// they stand on; settings the text does not mention keep their defaults.
#[verifier::rlimit(100)]
pub fn parse_config(input: &[u8]) -> (r: Result<Config, ParseError>)
    ensures
        match r {
            Ok(c) => config_outcome(input@) == Ok::<Config, (LineErrorView, int)>(c),
            Err(ParseError::Line(e, n)) => config_outcome(input@) == Err::<
                Config,
                (LineErrorView, int),
            >((e@, n as int)),
        },
{
    let total = input.len();
    let mut cfg = Config::default();
    let mut pos: usize = 0;
    let mut lineno: usize = 0;
    proof {
        assert(input@.skip(0) =~= input@);
    }
    loop
        invariant
            pos <= total,
            total == input@.len(),
            lineno <= pos,
            config_outcome(input@) == config_outcome_from(cfg, input@.skip(pos as int), lineno as int),
        decreases total - pos,
    {
        let rest = slice_subrange(input, pos, total);
        match find_in_slice(rest, 10) {
            Some(j) => {
                let line = slice_subrange(rest, 0, j);
                proof {
                    assert(line@ =~= input@.skip(pos as int).take(j as int));
                }
                match line_apply(cfg, line) {
                    Ok(c) => {
                        proof {
                            assert(input@.skip(pos as int).skip(j + 1) =~= input@.skip(
                                pos + j + 1,
                            ));
                        }
                        cfg = c;
                        pos = pos + j + 1;
                        lineno = lineno + 1;
                    },
                    Err(e) => {
                        return Err(ParseError::Line(e, lineno));
                    },
                }
            },
            None => {
                return match line_apply(cfg, rest) {
                    Ok(c) => Ok(c),
                    Err(e) => Err(ParseError::Line(e, lineno)),
                };
            },
        }
    }
}

} // verus!

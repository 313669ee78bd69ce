//! Key-combination parsing and keyboard-event planning for the
//! keystroke utility.
//!
//! A combination such as `CTRL+S` or `SHIFT+F1` is split on `+` into
//! tokens. Each token names a modifier or a main key from a closed
//! enumeration, matched without regard to ASCII case; a single character
//! stands for itself, lowered; an unknown longer token degrades to its
//! first character, lowered, so the utility still emits something rather
//! than hard-failing. The last main-key token wins, as repeated tokens
//! overwrite earlier ones, while modifiers accumulate in order.
//!
//! [`key_plan`] turns the parsed combination and the requested action
//! into the exact ordered sequence of key events to inject: modifiers go
//! down before the main key and come back up in reverse order.

use vstd::prelude::*;

verus! {

/// A key the utility can inject. Mirrors the closed set of names the
/// parser accepts, plus a literal character fallback.
#[derive(Clone, Copy, PartialEq, Eq, Structural, Debug)]
pub enum Key {
    Control,
    Shift,
    Alt,
    Meta,
    F1,
    F2,
    F3,
    F4,
    F5,
    F6,
    F7,
    F8,
    F9,
    F10,
    F11,
    F12,
    Space,
    Return,
    Tab,
    Escape,
    Backspace,
    Delete,
    Insert,
    Home,
    End,
    PageUp,
    PageDown,
    UpArrow,
    DownArrow,
    LeftArrow,
    RightArrow,
    Numpad0,
    Numpad1,
    Numpad2,
    Numpad3,
    Numpad4,
    Numpad5,
    Numpad6,
    Numpad7,
    Numpad8,
    Numpad9,
    /// A literal character, pressed as itself.
    Unicode(char),
}

/// The ASCII-lowered form of a character; anything but `A`–`Z` is
/// unchanged.
pub open spec fn spec_lower_char(c: char) -> char {
    if 65 <= c as u8 && c as u8 <= 90 && c as u32 <= 127 {
        ((c as u8) + 32) as char
    } else {
        c
    }
}

/// Lower one character, ASCII-only.
pub fn lower_char(c: char) -> (r: char)
    ensures
        r == spec_lower_char(c),
{
    let u = c as u32;
    if 65 <= u && u <= 90 {
        ((c as u8) + 32) as char
    } else {
        c
    }
}

/// Case-insensitive character equality, ASCII-only.
pub open spec fn spec_char_matches(c: char, k: char) -> bool {
    spec_lower_char(c) == spec_lower_char(k)
}

/// Case-insensitive token equality against a keyword, ASCII-only.
pub open spec fn spec_token_matches(s: Seq<char>, kw: Seq<char>) -> bool {
    s.len() == kw.len() && (forall|i: int| 0 <= i < s.len() ==> spec_char_matches(s[i], kw[i]))
}

fn char_matches(c: char, k: char) -> (r: bool)
    ensures
        r == spec_char_matches(c, k),
{
    lower_char(c) == lower_char(k)
}

fn token_matches(t: &Vec<char>, kw: &Vec<char>) -> (r: bool)
    ensures
        r == spec_token_matches(t@, kw@),
{
    if t.len() != kw.len() {
        return false;
    }
    let mut i: usize = 0;
    while i < t.len()
        invariant
            i <= t@.len(),
            t@.len() == kw@.len(),
            forall|j: int| 0 <= j < i ==> spec_char_matches(t@[j], kw@[j]),
        decreases t@.len() - i,
    {
        if !char_matches(t[i], kw[i]) {
            return false;
        }
        i = i + 1;
    }
    true
}

/// What one token contributes to the combination.
#[derive(Clone, Copy, PartialEq, Eq, Structural, Debug)]
pub enum KeyToken {
    /// A modifier name: accumulates, in order.
    Modifier(Key),
    /// A recognized main key, or a single literal character: the last
    /// one wins.
    Main(Key),
    /// An unknown longer token, degraded to its first character; worth
    /// a warning, but still usable as the main key.
    Fallback(Key),
    /// An empty token: contributes nothing.
    Nothing,
}

/// The meaning of one token of a key combination.
pub open spec fn spec_parse_token(s: Seq<char>) -> KeyToken {
    if spec_token_matches(s, seq!['C', 'T', 'R', 'L']) || spec_token_matches(
        s,
        seq!['C', 'O', 'N', 'T', 'R', 'O', 'L'],
    ) {
        KeyToken::Modifier(Key::Control)
    } else if spec_token_matches(s, seq!['S', 'H', 'I', 'F', 'T']) {
        KeyToken::Modifier(Key::Shift)
    } else if spec_token_matches(s, seq!['A', 'L', 'T']) {
        KeyToken::Modifier(Key::Alt)
    } else if spec_token_matches(s, seq!['M', 'E', 'T', 'A']) || spec_token_matches(
        s,
        seq!['W', 'I', 'N'],
    ) || spec_token_matches(s, seq!['S', 'U', 'P', 'E', 'R']) {
        KeyToken::Modifier(Key::Meta)
    } else if spec_token_matches(s, seq!['F', '1']) {
        KeyToken::Main(Key::F1)
    } else if spec_token_matches(s, seq!['F', '2']) {
        KeyToken::Main(Key::F2)
    } else if spec_token_matches(s, seq!['F', '3']) {
        KeyToken::Main(Key::F3)
    } else if spec_token_matches(s, seq!['F', '4']) {
        KeyToken::Main(Key::F4)
    } else if spec_token_matches(s, seq!['F', '5']) {
        KeyToken::Main(Key::F5)
    } else if spec_token_matches(s, seq!['F', '6']) {
        KeyToken::Main(Key::F6)
    } else if spec_token_matches(s, seq!['F', '7']) {
        KeyToken::Main(Key::F7)
    } else if spec_token_matches(s, seq!['F', '8']) {
        KeyToken::Main(Key::F8)
    } else if spec_token_matches(s, seq!['F', '9']) {
        KeyToken::Main(Key::F9)
    } else if spec_token_matches(s, seq!['F', '1', '0']) {
        KeyToken::Main(Key::F10)
    } else if spec_token_matches(s, seq!['F', '1', '1']) {
        KeyToken::Main(Key::F11)
    } else if spec_token_matches(s, seq!['F', '1', '2']) {
        KeyToken::Main(Key::F12)
    } else if spec_token_matches(s, seq!['S', 'P', 'A', 'C', 'E']) {
        KeyToken::Main(Key::Space)
    } else if spec_token_matches(s, seq!['E', 'N', 'T', 'E', 'R']) || spec_token_matches(
        s,
        seq!['R', 'E', 'T', 'U', 'R', 'N'],
    ) {
        KeyToken::Main(Key::Return)
    } else if spec_token_matches(s, seq!['T', 'A', 'B']) {
        KeyToken::Main(Key::Tab)
    } else if spec_token_matches(s, seq!['E', 'S', 'C', 'A', 'P', 'E']) || spec_token_matches(
        s,
        seq!['E', 'S', 'C'],
    ) {
        KeyToken::Main(Key::Escape)
    } else if spec_token_matches(s, seq!['B', 'A', 'C', 'K', 'S', 'P', 'A', 'C', 'E']) {
        KeyToken::Main(Key::Backspace)
    } else if spec_token_matches(s, seq!['D', 'E', 'L', 'E', 'T', 'E']) || spec_token_matches(
        s,
        seq!['D', 'E', 'L'],
    ) {
        KeyToken::Main(Key::Delete)
    } else if spec_token_matches(s, seq!['I', 'N', 'S', 'E', 'R', 'T']) || spec_token_matches(
        s,
        seq!['I', 'N', 'S'],
    ) {
        KeyToken::Main(Key::Insert)
    } else if spec_token_matches(s, seq!['H', 'O', 'M', 'E']) {
        KeyToken::Main(Key::Home)
    } else if spec_token_matches(s, seq!['E', 'N', 'D']) {
        KeyToken::Main(Key::End)
    } else if spec_token_matches(s, seq!['P', 'A', 'G', 'E', 'U', 'P']) || spec_token_matches(
        s,
        seq!['P', 'G', 'U', 'P'],
    ) {
        KeyToken::Main(Key::PageUp)
    } else if spec_token_matches(s, seq!['P', 'A', 'G', 'E', 'D', 'O', 'W', 'N'])
        || spec_token_matches(s, seq!['P', 'G', 'D', 'N']) {
        KeyToken::Main(Key::PageDown)
    } else if spec_token_matches(s, seq!['U', 'P']) || spec_token_matches(
        s,
        seq!['A', 'R', 'R', 'O', 'W', 'U', 'P'],
    ) {
        KeyToken::Main(Key::UpArrow)
    } else if spec_token_matches(s, seq!['D', 'O', 'W', 'N']) || spec_token_matches(
        s,
        seq!['A', 'R', 'R', 'O', 'W', 'D', 'O', 'W', 'N'],
    ) {
        KeyToken::Main(Key::DownArrow)
    } else if spec_token_matches(s, seq!['L', 'E', 'F', 'T']) || spec_token_matches(
        s,
        seq!['A', 'R', 'R', 'O', 'W', 'L', 'E', 'F', 'T'],
    ) {
        KeyToken::Main(Key::LeftArrow)
    } else if spec_token_matches(s, seq!['R', 'I', 'G', 'H', 'T']) || spec_token_matches(
        s,
        seq!['A', 'R', 'R', 'O', 'W', 'R', 'I', 'G', 'H', 'T'],
    ) {
        KeyToken::Main(Key::RightArrow)
    } else if spec_token_matches(s, seq!['N', 'U', 'M', 'P', 'A', 'D', '0']) {
        KeyToken::Main(Key::Numpad0)
    } else if spec_token_matches(s, seq!['N', 'U', 'M', 'P', 'A', 'D', '1']) {
        KeyToken::Main(Key::Numpad1)
    } else if spec_token_matches(s, seq!['N', 'U', 'M', 'P', 'A', 'D', '2']) {
        KeyToken::Main(Key::Numpad2)
    } else if spec_token_matches(s, seq!['N', 'U', 'M', 'P', 'A', 'D', '3']) {
        KeyToken::Main(Key::Numpad3)
    } else if spec_token_matches(s, seq!['N', 'U', 'M', 'P', 'A', 'D', '4']) {
        KeyToken::Main(Key::Numpad4)
    } else if spec_token_matches(s, seq!['N', 'U', 'M', 'P', 'A', 'D', '5']) {
        KeyToken::Main(Key::Numpad5)
    } else if spec_token_matches(s, seq!['N', 'U', 'M', 'P', 'A', 'D', '6']) {
        KeyToken::Main(Key::Numpad6)
    } else if spec_token_matches(s, seq!['N', 'U', 'M', 'P', 'A', 'D', '7']) {
        KeyToken::Main(Key::Numpad7)
    } else if spec_token_matches(s, seq!['N', 'U', 'M', 'P', 'A', 'D', '8']) {
        KeyToken::Main(Key::Numpad8)
    } else if spec_token_matches(s, seq!['N', 'U', 'M', 'P', 'A', 'D', '9']) {
        KeyToken::Main(Key::Numpad9)
    } else if s.len() == 1 {
        KeyToken::Main(Key::Unicode(spec_lower_char(s[0])))
    } else if s.len() > 1 {
        KeyToken::Fallback(Key::Unicode(spec_lower_char(s[0])))
    } else {
        KeyToken::Nothing
    }
}

/// Parse one token of a key combination.
pub fn parse_token(t: &Vec<char>) -> (k: KeyToken)
    ensures
        k == spec_parse_token(t@),
{
    if token_matches(t, &vec!['C', 'T', 'R', 'L']) || token_matches(
        t,
        &vec!['C', 'O', 'N', 'T', 'R', 'O', 'L'],
    ) {
        KeyToken::Modifier(Key::Control)
    } else if token_matches(t, &vec!['S', 'H', 'I', 'F', 'T']) {
        KeyToken::Modifier(Key::Shift)
    } else if token_matches(t, &vec!['A', 'L', 'T']) {
        KeyToken::Modifier(Key::Alt)
    } else if token_matches(t, &vec!['M', 'E', 'T', 'A']) || token_matches(t, &vec!['W', 'I', 'N'])
        || token_matches(t, &vec!['S', 'U', 'P', 'E', 'R']) {
        KeyToken::Modifier(Key::Meta)
    } else if token_matches(t, &vec!['F', '1']) {
        KeyToken::Main(Key::F1)
    } else if token_matches(t, &vec!['F', '2']) {
        KeyToken::Main(Key::F2)
    } else if token_matches(t, &vec!['F', '3']) {
        KeyToken::Main(Key::F3)
    } else if token_matches(t, &vec!['F', '4']) {
        KeyToken::Main(Key::F4)
    } else if token_matches(t, &vec!['F', '5']) {
        KeyToken::Main(Key::F5)
    } else if token_matches(t, &vec!['F', '6']) {
        KeyToken::Main(Key::F6)
    } else if token_matches(t, &vec!['F', '7']) {
        KeyToken::Main(Key::F7)
    } else if token_matches(t, &vec!['F', '8']) {
        KeyToken::Main(Key::F8)
    } else if token_matches(t, &vec!['F', '9']) {
        KeyToken::Main(Key::F9)
    } else if token_matches(t, &vec!['F', '1', '0']) {
        KeyToken::Main(Key::F10)
    } else if token_matches(t, &vec!['F', '1', '1']) {
        KeyToken::Main(Key::F11)
    } else if token_matches(t, &vec!['F', '1', '2']) {
        KeyToken::Main(Key::F12)
    } else if token_matches(t, &vec!['S', 'P', 'A', 'C', 'E']) {
        KeyToken::Main(Key::Space)
    } else if token_matches(t, &vec!['E', 'N', 'T', 'E', 'R']) || token_matches(
        t,
        &vec!['R', 'E', 'T', 'U', 'R', 'N'],
    ) {
        KeyToken::Main(Key::Return)
    } else if token_matches(t, &vec!['T', 'A', 'B']) {
        KeyToken::Main(Key::Tab)
    } else if token_matches(t, &vec!['E', 'S', 'C', 'A', 'P', 'E']) || token_matches(
        t,
        &vec!['E', 'S', 'C'],
    ) {
        KeyToken::Main(Key::Escape)
    } else if token_matches(t, &vec!['B', 'A', 'C', 'K', 'S', 'P', 'A', 'C', 'E']) {
        KeyToken::Main(Key::Backspace)
    } else if token_matches(t, &vec!['D', 'E', 'L', 'E', 'T', 'E']) || token_matches(
        t,
        &vec!['D', 'E', 'L'],
    ) {
        KeyToken::Main(Key::Delete)
    } else if token_matches(t, &vec!['I', 'N', 'S', 'E', 'R', 'T']) || token_matches(
        t,
        &vec!['I', 'N', 'S'],
    ) {
        KeyToken::Main(Key::Insert)
    } else if token_matches(t, &vec!['H', 'O', 'M', 'E']) {
        KeyToken::Main(Key::Home)
    } else if token_matches(t, &vec!['E', 'N', 'D']) {
        KeyToken::Main(Key::End)
    } else if token_matches(t, &vec!['P', 'A', 'G', 'E', 'U', 'P']) || token_matches(
        t,
        &vec!['P', 'G', 'U', 'P'],
    ) {
        KeyToken::Main(Key::PageUp)
    } else if token_matches(t, &vec!['P', 'A', 'G', 'E', 'D', 'O', 'W', 'N']) || token_matches(
        t,
        &vec!['P', 'G', 'D', 'N'],
    ) {
        KeyToken::Main(Key::PageDown)
    } else if token_matches(t, &vec!['U', 'P']) || token_matches(
        t,
        &vec!['A', 'R', 'R', 'O', 'W', 'U', 'P'],
    ) {
        KeyToken::Main(Key::UpArrow)
    } else if token_matches(t, &vec!['D', 'O', 'W', 'N']) || token_matches(
        t,
        &vec!['A', 'R', 'R', 'O', 'W', 'D', 'O', 'W', 'N'],
    ) {
        KeyToken::Main(Key::DownArrow)
    } else if token_matches(t, &vec!['L', 'E', 'F', 'T']) || token_matches(
        t,
        &vec!['A', 'R', 'R', 'O', 'W', 'L', 'E', 'F', 'T'],
    ) {
        KeyToken::Main(Key::LeftArrow)
    } else if token_matches(t, &vec!['R', 'I', 'G', 'H', 'T']) || token_matches(
        t,
        &vec!['A', 'R', 'R', 'O', 'W', 'R', 'I', 'G', 'H', 'T'],
    ) {
        KeyToken::Main(Key::RightArrow)
    } else if token_matches(t, &vec!['N', 'U', 'M', 'P', 'A', 'D', '0']) {
        KeyToken::Main(Key::Numpad0)
    } else if token_matches(t, &vec!['N', 'U', 'M', 'P', 'A', 'D', '1']) {
        KeyToken::Main(Key::Numpad1)
    } else if token_matches(t, &vec!['N', 'U', 'M', 'P', 'A', 'D', '2']) {
        KeyToken::Main(Key::Numpad2)
    } else if token_matches(t, &vec!['N', 'U', 'M', 'P', 'A', 'D', '3']) {
        KeyToken::Main(Key::Numpad3)
    } else if token_matches(t, &vec!['N', 'U', 'M', 'P', 'A', 'D', '4']) {
        KeyToken::Main(Key::Numpad4)
    } else if token_matches(t, &vec!['N', 'U', 'M', 'P', 'A', 'D', '5']) {
        KeyToken::Main(Key::Numpad5)
    } else if token_matches(t, &vec!['N', 'U', 'M', 'P', 'A', 'D', '6']) {
        KeyToken::Main(Key::Numpad6)
    } else if token_matches(t, &vec!['N', 'U', 'M', 'P', 'A', 'D', '7']) {
        KeyToken::Main(Key::Numpad7)
    } else if token_matches(t, &vec!['N', 'U', 'M', 'P', 'A', 'D', '8']) {
        KeyToken::Main(Key::Numpad8)
    } else if token_matches(t, &vec!['N', 'U', 'M', 'P', 'A', 'D', '9']) {
        KeyToken::Main(Key::Numpad9)
    } else if t.len() == 1 {
        KeyToken::Main(Key::Unicode(lower_char(t[0])))
    } else if t.len() > 1 {
        KeyToken::Fallback(Key::Unicode(lower_char(t[0])))
    } else {
        KeyToken::Nothing
    }
}

/// Index of the first `+` in `s`, or `s.len()` if there is none.
pub open spec fn spec_find_plus(s: Seq<char>) -> nat
    decreases s.len(),
{
    if s.len() == 0 {
        0
    } else if s[0] == '+' {
        0
    } else {
        1 + spec_find_plus(s.drop_first())
    }
}

proof fn lemma_find_plus_at(s: Seq<char>, j: int)
    requires
        0 <= j <= s.len(),
        forall|k: int| 0 <= k < j ==> s[k] != '+',
        j < s.len() ==> s[j] == '+',
    ensures
        spec_find_plus(s) == j,
    decreases s.len(),
{
    if j == 0 {
    } else {
        assert(s[0] != '+');
        let d = s.drop_first();
        assert forall|k: int| 0 <= k < j - 1 implies d[k] != '+' by {
            assert(d[k] == s[k + 1]);
        }
        if j - 1 < d.len() {
            assert(d[j - 1] == s[j]);
        }
        lemma_find_plus_at(d, j - 1);
    }
}

/// The tokens of `s`, split on every `+`; empty pieces are kept, as a
/// trailing or doubled separator yields an empty token.
pub open spec fn spec_split_plus(s: Seq<char>) -> Seq<Seq<char>>
    decreases s.len(),
{
    let i = spec_find_plus(s);
    if i >= s.len() {
        seq![s]
    } else {
        seq![s.subrange(0, i as int)] + spec_split_plus(s.subrange(i as int + 1, s.len() as int))
    }
}

/// The views of a vector of tokens.
pub open spec fn views_of(parts: Seq<Vec<char>>) -> Seq<Seq<char>> {
    parts.map_values(|t: Vec<char>| t@)
}

fn split_plus_from(s: &Vec<char>, start: usize) -> (r: Vec<Vec<char>>)
    requires
        start <= s@.len(),
    ensures
        views_of(r@) == spec_split_plus(s@.subrange(start as int, s@.len() as int)),
    decreases s@.len() - start,
{
    let ghost sub = s@.subrange(start as int, s@.len() as int);
    let mut i: usize = start;
    while i < s.len() && s[i] != '+'
        invariant
            start <= i <= s@.len(),
            forall|k: int| start <= k < i ==> s@[k] != '+',
        decreases s@.len() - i,
    {
        i = i + 1;
    }
    let mut tok: Vec<char> = Vec::new();
    let mut j: usize = start;
    while j < i
        invariant
            start <= j <= i <= s@.len(),
            tok@ == s@.subrange(start as int, j as int),
        decreases i - j,
    {
        tok.push(s[j]);
        proof {
            assert(tok@ =~= s@.subrange(start as int, j as int + 1));
        }
        j = j + 1;
    }
    proof {
        assert forall|k: int| 0 <= k < i - start implies sub[k] != '+' by {
            assert(sub[k] == s@[k + start]);
        }
        if i < s.len() {
            assert(sub[i - start] == s@[i as int]);
        }
        lemma_find_plus_at(sub, i - start);
        assert(tok@ =~= sub.subrange(0, i - start));
    }
    if i == s.len() {
        let mut r: Vec<Vec<char>> = Vec::new();
        r.push(tok);
        proof {
            assert(tok@ =~= sub);
            assert(views_of(r@) =~= seq![sub]);
        }
        r
    } else {
        let mut rest = split_plus_from(s, i + 1);
        let ghost rest_view = views_of(rest@);
        let mut r: Vec<Vec<char>> = Vec::new();
        r.push(tok);
        r.append(&mut rest);
        proof {
            assert(s@.subrange(i as int + 1, s@.len() as int) =~= sub.subrange(
                i - start + 1,
                sub.len() as int,
            ));
            assert(views_of(r@) =~= seq![sub.subrange(0, i - start)] + rest_view);
        }
        r
    }
}

/// Split a key combination on `+` into its tokens.
pub fn split_plus(s: &Vec<char>) -> (r: Vec<Vec<char>>)
    ensures
        views_of(r@) == spec_split_plus(s@),
{
    let r = split_plus_from(s, 0);
    proof {
        assert(s@.subrange(0, s@.len() as int) =~= s@);
    }
    r
}

/// What a sequence of tokens amounts to: modifiers accumulate in order,
/// and the last main-key or fallback token wins; empty tokens change
/// nothing.
pub open spec fn spec_fold_tokens(parts: Seq<Seq<char>>) -> (Seq<Key>, Option<Key>)
    decreases parts.len(),
{
    if parts.len() == 0 {
        (Seq::<Key>::empty(), Option::<Key>::None)
    } else {
        let prev = spec_fold_tokens(parts.drop_last());
        match spec_parse_token(parts.last()) {
            KeyToken::Modifier(k) => (prev.0.push(k), prev.1),
            KeyToken::Main(k) => (prev.0, Option::Some(k)),
            KeyToken::Fallback(k) => (prev.0, Option::Some(k)),
            KeyToken::Nothing => prev,
        }
    }
}

/// Fold the parsed tokens into the modifier list and the main key.
pub fn parse_key_parts(parts: &Vec<Vec<char>>) -> (r: (Vec<Key>, Option<Key>))
    ensures
        (r.0@, r.1) == spec_fold_tokens(views_of(parts@)),
{
    let ghost m = views_of(parts@);
    let mut mods: Vec<Key> = Vec::new();
    let mut main: Option<Key> = Option::None;
    let mut i: usize = 0;
    while i < parts.len()
        invariant
            i <= parts@.len(),
            m == views_of(parts@),
            m.len() == parts@.len(),
            (mods@, main) == spec_fold_tokens(m.take(i as int)),
        decreases parts@.len() - i,
    {
        let tk = parse_token(&parts[i]);
        proof {
            assert(m.take(i as int + 1).drop_last() =~= m.take(i as int));
            assert(m.take(i as int + 1).last() == m[i as int]);
            assert(m[i as int] == parts@[i as int]@);
        }
        match tk {
            KeyToken::Modifier(k) => {
                mods.push(k);
            },
            KeyToken::Main(k) => {
                main = Option::Some(k);
            },
            KeyToken::Fallback(k) => {
                main = Option::Some(k);
            },
            KeyToken::Nothing => {},
        }
        i = i + 1;
    }
    proof {
        assert(m.take(parts@.len() as int) =~= m);
    }
    (mods, main)
}

/// The modifiers and main key named by a whole combination string.
pub open spec fn spec_parse_combo(s: Seq<char>) -> (Seq<Key>, Option<Key>) {
    spec_fold_tokens(spec_split_plus(s))
}

/// Parse a key combination such as `CTRL+S` into its modifiers, in
/// order, and its main key, if any.
pub fn parse_key_combo(key: &Vec<char>) -> (r: (Vec<Key>, Option<Key>))
    ensures
        (r.0@, r.1) == spec_parse_combo(key@),
{
    let parts = split_plus(key);
    parse_key_parts(&parts)
}

/// The requested gesture.
#[derive(Clone, Copy, PartialEq, Eq, Structural, Debug)]
pub enum KeyAction {
    /// Press and hold.
    Down,
    /// Release.
    Up,
    /// Press and release.
    Tap,
}

/// How one key event moves a key.
#[derive(Clone, Copy, PartialEq, Eq, Structural, Debug)]
pub enum Direction {
    Press,
    Release,
    Click,
}

/// One keyboard event to inject.
#[derive(Clone, Copy, PartialEq, Eq, Structural, Debug)]
pub struct KeyEvent {
    pub key: Key,
    pub direction: Direction,
}

/// Every modifier pressed, in order.
pub open spec fn spec_press_mods(mods: Seq<Key>) -> Seq<KeyEvent> {
    Seq::new(mods.len(), |j: int| KeyEvent { key: mods[j], direction: Direction::Press })
}

/// Every modifier released, in reverse order.
pub open spec fn spec_release_mods_rev(mods: Seq<Key>) -> Seq<KeyEvent> {
    Seq::new(
        mods.len(),
        |j: int| KeyEvent { key: mods[mods.len() - 1 - j], direction: Direction::Release },
    )
}

/// The main key moved in the given direction, if there is one.
pub open spec fn spec_main_event(main: Option<Key>, d: Direction) -> Seq<KeyEvent> {
    match main {
        Option::Some(k) => seq![KeyEvent { key: k, direction: d }],
        Option::None => Seq::<KeyEvent>::empty(),
    }
}

/// The exact ordered events for one gesture: `Down` presses the
/// modifiers then the main key; `Up` releases the main key then the
/// modifiers in reverse order; `Tap` presses the modifiers, clicks the
/// main key, and releases the modifiers in reverse order.
pub open spec fn spec_key_plan(action: KeyAction, mods: Seq<Key>, main: Option<Key>) -> Seq<
    KeyEvent,
> {
    match action {
        KeyAction::Down => spec_press_mods(mods) + spec_main_event(main, Direction::Press),
        KeyAction::Up => spec_main_event(main, Direction::Release) + spec_release_mods_rev(mods),
        KeyAction::Tap => spec_press_mods(mods) + spec_main_event(main, Direction::Click)
            + spec_release_mods_rev(mods),
    }
}

fn push_press_mods(evs: &mut Vec<KeyEvent>, mods: &Vec<Key>)
    ensures
        final(evs)@ == old(evs)@ + spec_press_mods(mods@),
{
    let ghost base = evs@;
    let mut i: usize = 0;
    while i < mods.len()
        invariant
            i <= mods@.len(),
            evs@.len() == base.len() + i,
            forall|j: int| 0 <= j < base.len() ==> evs@[j] == base[j],
            forall|j: int|
                0 <= j < i ==> #[trigger] evs@[base.len() + j] == (KeyEvent {
                    key: mods@[j],
                    direction: Direction::Press,
                }),
        decreases mods@.len() - i,
    {
        evs.push(KeyEvent { key: mods[i], direction: Direction::Press });
        i = i + 1;
    }
    proof {
        let whole = base + spec_press_mods(mods@);
        assert forall|k: int| 0 <= k < evs@.len() implies evs@[k] == whole[k] by {
            if k >= base.len() {
                let j = k - base.len();
                assert(evs@[base.len() + j] == (KeyEvent {
                    key: mods@[j],
                    direction: Direction::Press,
                }));
            }
        }
        assert(evs@ =~= whole);
    }
}

fn push_release_mods_rev(evs: &mut Vec<KeyEvent>, mods: &Vec<Key>)
    ensures
        final(evs)@ == old(evs)@ + spec_release_mods_rev(mods@),
{
    let ghost base = evs@;
    let mut i: usize = 0;
    while i < mods.len()
        invariant
            i <= mods@.len(),
            evs@.len() == base.len() + i,
            forall|j: int| 0 <= j < base.len() ==> evs@[j] == base[j],
            forall|j: int|
                0 <= j < i ==> #[trigger] evs@[base.len() + j] == (KeyEvent {
                    key: mods@[mods@.len() - 1 - j],
                    direction: Direction::Release,
                }),
        decreases mods@.len() - i,
    {
        evs.push(KeyEvent { key: mods[mods.len() - 1 - i], direction: Direction::Release });
        i = i + 1;
    }
    proof {
        let whole = base + spec_release_mods_rev(mods@);
        assert forall|k: int| 0 <= k < evs@.len() implies evs@[k] == whole[k] by {
            if k >= base.len() {
                let j = k - base.len();
                assert(evs@[base.len() + j] == (KeyEvent {
                    key: mods@[mods@.len() - 1 - j],
                    direction: Direction::Release,
                }));
            }
        }
        assert(evs@ =~= whole);
    }
}

fn push_main(evs: &mut Vec<KeyEvent>, main: Option<Key>, d: Direction)
    ensures
        final(evs)@ == old(evs)@ + spec_main_event(main, d),
{
    let ghost base = evs@;
    match main {
        Option::Some(k) => {
            evs.push(KeyEvent { key: k, direction: d });
        },
        Option::None => {},
    }
    proof {
        assert(evs@ =~= base + spec_main_event(main, d));
    }
}

/// Build the ordered keyboard events for one gesture on a parsed
/// combination.
pub fn key_plan(action: KeyAction, modifiers: &Vec<Key>, main: Option<Key>) -> (evs: Vec<KeyEvent>)
    ensures
        evs@ == spec_key_plan(action, modifiers@, main),
{
    let mut evs: Vec<KeyEvent> = Vec::new();
    match action {
        KeyAction::Down => {
            push_press_mods(&mut evs, modifiers);
            push_main(&mut evs, main, Direction::Press);
            proof {
                assert(evs@ =~= spec_key_plan(action, modifiers@, main));
            }
        },
        KeyAction::Up => {
            push_main(&mut evs, main, Direction::Release);
            push_release_mods_rev(&mut evs, modifiers);
            proof {
                assert(evs@ =~= spec_key_plan(action, modifiers@, main));
            }
        },
        KeyAction::Tap => {
            push_press_mods(&mut evs, modifiers);
            push_main(&mut evs, main, Direction::Click);
            push_release_mods_rev(&mut evs, modifiers);
            proof {
                assert(evs@ =~= spec_key_plan(action, modifiers@, main));
            }
        },
    }
    evs
}

} // verus!

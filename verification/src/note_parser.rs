//! Parser for the note commands that arrive over UDP.
//!
//! A command is `[channel][octave][note][velocity?][length?][note_offset?]`,
//! one character each, case-insensitive, with surrounding whitespace ignored.
//! Several commands may share one packet, separated by `;`.

use vstd::prelude::*;

use crate::note_names::{spec_note_name, spec_note_octave};

verus! {

/// A parsed note-on command. The velocity is the fraction
/// `velocity_num / velocity_den`; the note sounds for `length_samples` samples.
#[derive(Debug, Clone, Copy, PartialEq, Eq, Structural)]
pub struct NoteCommand {
    /// Voice channel, 0-15.
    pub channel: usize,
    /// MIDI note number, 0-127.
    pub midi_note: u8,
    /// Numerator of the velocity fraction.
    pub velocity_num: u8,
    /// Denominator of the velocity fraction.
    pub velocity_den: u8,
    /// Length digit, 0-35 (0 when the command has none); the note lasts
    /// `length_units + 1` sixteenths of a bar.
    pub length_units: u8,
    /// Duration in samples before auto-release.
    pub length_samples: u64,
}

// ---------------------------------------------------------------------------
// Characters

/// ASCII lower-casing: `A`-`Z` become `a`-`z`, every other character stays.
pub open spec fn spec_ascii_lower(c: char) -> char {
    if 'A' <= c <= 'Z' {
        ((c as u32) + 32) as char
    } else {
        c
    }
}

/// The characters with the Unicode White_Space property.
pub open spec fn spec_is_whitespace(c: char) -> bool {
    let u = c as u32;
    ||| 0x09 <= u <= 0x0D
    ||| u == 0x20
    ||| u == 0x85
    ||| u == 0xA0
    ||| u == 0x1680
    ||| 0x2000 <= u <= 0x200A
    ||| u == 0x2028
    ||| u == 0x2029
    ||| u == 0x202F
    ||| u == 0x205F
    ||| u == 0x3000
}

/// Value of a base-36 digit: `0`-`9` are 0-9, `a`-`z` (either case) are 10-35.
pub open spec fn spec_base36(c: char) -> Option<u8> {
    let l = spec_ascii_lower(c);
    if '0' <= l <= '9' {
        Some(((l as u32) - ('0' as u32)) as u8)
    } else if 'a' <= l <= 'z' {
        Some(((l as u32) - ('a' as u32) + 10) as u8)
    } else {
        None
    }
}

/// Value of a decimal digit `0`-`9`.
pub open spec fn spec_decimal_digit(c: char) -> Option<u8> {
    if '0' <= c <= '9' {
        Some(((c as u32) - ('0' as u32)) as u8)
    } else {
        None
    }
}

/// Chromatic offset from C of a note character: `c d e f g a b` are the
/// notes of the octave, `h`-`z` continue upward from 12, and the digits
/// `0`-`9` lie 10 down to 1 semitones below C.
pub open spec fn spec_note_semitone(c: char) -> Option<int> {
    let l = spec_ascii_lower(c);
    if l == 'c' {
        Some(0)
    } else if l == 'd' {
        Some(2)
    } else if l == 'e' {
        Some(4)
    } else if l == 'f' {
        Some(5)
    } else if l == 'g' {
        Some(7)
    } else if l == 'a' {
        Some(9)
    } else if l == 'b' {
        Some(11)
    } else if 'h' <= l <= 'z' {
        Some((l as u32) - ('h' as u32) + 12)
    } else if '0' <= l <= '9' {
        Some((l as u32) - ('0' as u32) - 10)
    } else {
        None
    }
}

/// MIDI note of a note character in an octave, shifted by `offset`
/// semitones; octave 4 holds middle C (60). `None` outside 0-127.
pub open spec fn spec_note_to_midi(octave: u8, note_char: char, offset: int) -> Option<u8> {
    match spec_note_semitone(note_char) {
        Some(st) => {
            let m = (octave + 1) * 12 + st + offset;
            if 0 <= m <= 127 {
                Some(m as u8)
            } else {
                None
            }
        },
        None => None,
    }
}

/// Velocity digit in 35ths: a base-36 digit, or 8 for any other character.
pub open spec fn spec_velocity_units(c: char) -> u8 {
    match spec_base36(c) {
        Some(v) => v,
        None => 8,
    }
}

/// Length digit: a base-36 digit, or 4 for any other character.
pub open spec fn spec_length_units(c: char) -> u8 {
    match spec_base36(c) {
        Some(v) => v,
        None => 4,
    }
}

/// Samples in `units + 1` sixteenths of a 4/4 bar at 120 BPM (a bar is two
/// seconds), at `sample_rate` samples per second, rounded down.
pub open spec fn spec_length_samples(units: u8, sample_rate: u32) -> u64 {
    (((units + 1) * sample_rate) / 8) as u64
}

// ---------------------------------------------------------------------------
// Trimming

pub open spec fn spec_trim_start(s: Seq<char>) -> Seq<char>
    decreases s.len(),
{
    if s.len() > 0 && spec_is_whitespace(s[0]) {
        spec_trim_start(s.drop_first())
    } else {
        s
    }
}

pub open spec fn spec_trim_end(s: Seq<char>) -> Seq<char>
    decreases s.len(),
{
    if s.len() > 0 && spec_is_whitespace(s.last()) {
        spec_trim_end(s.drop_last())
    } else {
        s
    }
}

/// `s` without its leading and trailing whitespace.
pub open spec fn spec_trim(s: Seq<char>) -> Seq<char> {
    spec_trim_end(spec_trim_start(s))
}

// ---------------------------------------------------------------------------
// Commands

/// The command that a character sequence spells, for a given sample rate.
pub open spec fn spec_parse(input: Seq<char>, sample_rate: u32) -> Option<NoteCommand> {
    let s = spec_trim(input);
    if s.len() < 3 {
        None
    } else {
        match (spec_base36(s[0]), spec_decimal_digit(s[1])) {
            (Some(channel), Some(octave)) => {
                let offset = if s.len() > 5 {
                    spec_base36(s[5])
                } else {
                    Some(0u8)
                };
                let (velocity_num, velocity_den) = if s.len() > 3 {
                    (spec_velocity_units(s[3]), 35u8)
                } else {
                    (1u8, 2u8)
                };
                let length_units = if s.len() > 4 {
                    spec_length_units(s[4])
                } else {
                    0u8
                };
                if channel > 15 {
                    None
                } else {
                    match offset {
                        Some(off) => match spec_note_to_midi(octave, s[2], off as int) {
                            Some(midi_note) => Some(
                                NoteCommand {
                                    channel: channel as usize,
                                    midi_note,
                                    velocity_num,
                                    velocity_den,
                                    length_units,
                                    length_samples: spec_length_samples(length_units, sample_rate),
                                },
                            ),
                            None => None,
                        },
                        None => None,
                    }
                }
            },
            _ => None,
        }
    }
}

// ---------------------------------------------------------------------------
// Executable parsing

/// Whether `c` has the Unicode White_Space property (what `char::is_whitespace`
/// tests): the code points that `spec_is_whitespace` lists.
fn char_is_whitespace(c: char) -> (b: bool)
    ensures
        b == spec_is_whitespace(c),
{
    let u = c as u32;
    (0x09 <= u && u <= 0x0D) || u == 0x20 || u == 0x85 || u == 0xA0 || u == 0x1680 || (0x2000 <= u
        && u <= 0x200A) || u == 0x2028 || u == 0x2029 || u == 0x202F || u == 0x205F || u == 0x3000
}

fn ascii_lower(c: char) -> (r: char)
    ensures
        r == spec_ascii_lower(c),
{
    if 'A' <= c && c <= 'Z' {
        ((c as u8) + 32) as char
    } else {
        c
    }
}

/// Parse a base-36 digit (0-9, a-z case-insensitive) to its value 0-35.
fn parse_base36(c: char) -> (res: Option<u8>)
    ensures
        res == spec_base36(c),
{
    let l = ascii_lower(c);
    if '0' <= l && l <= '9' {
        Some((l as u8) - 48u8)
    } else if 'a' <= l && l <= 'z' {
        Some((l as u8) - 97u8 + 10)
    } else {
        None
    }
}

fn decimal_digit(c: char) -> (res: Option<u8>)
    ensures
        res == spec_decimal_digit(c),
{
    if '0' <= c && c <= '9' {
        Some((c as u8) - 48u8)
    } else {
        None
    }
}

/// Parse a note character to its chromatic offset from C.
/// Letters a-g are the notes of the current octave, h-z are higher notes
/// above B, and digits 0-9 are lower (10 down to 1 semitones below C).
fn parse_note_char(c: char) -> (res: Option<i32>)
    ensures
        res matches Some(v) ==> spec_note_semitone(c) == Some(v as int),
        res is None ==> spec_note_semitone(c) is None,
{
    let l = ascii_lower(c);
    if l == 'c' {
        Some(0)
    } else if l == 'd' {
        Some(2)
    } else if l == 'e' {
        Some(4)
    } else if l == 'f' {
        Some(5)
    } else if l == 'g' {
        Some(7)
    } else if l == 'a' {
        Some(9)
    } else if l == 'b' {
        Some(11)
    } else if 'h' <= l && l <= 'z' {
        Some(((l as u8) - 104u8) as i32 + 12)
    } else if '0' <= l && l <= '9' {
        Some(((l as u8) - 48u8) as i32 - 10)
    } else {
        None
    }
}

/// Convert a note character in an octave (octave 4 holds C = MIDI 60) plus
/// `note_offset` further chromatic steps to a MIDI note number.
fn note_to_midi(octave: u8, note_char: char, note_offset: i32) -> (res: Option<u8>)
    ensures
        res == spec_note_to_midi(octave, note_char, note_offset as int),
{
    let semitone = match parse_note_char(note_char) {
        Some(s) => s,
        None => return None,
    };
    let midi: i64 = (octave as i64 + 1) * 12 + semitone as i64 + note_offset as i64;
    if midi >= 0 && midi <= 127 {
        Some(midi as u8)
    } else {
        None
    }
}

/// Velocity digit in 35ths (a base-36 digit; 8 for anything else).
fn parse_velocity(c: char) -> (v: u8)
    ensures
        v == spec_velocity_units(c),
{
    match parse_base36(c) {
        Some(v) => v,
        None => 8,
    }
}

/// Length digit (a base-36 digit; 4 for anything else).
fn parse_length_units(c: char) -> (v: u8)
    ensures
        v == spec_length_units(c),
{
    match parse_base36(c) {
        Some(v) => v,
        None => 4,
    }
}

/// Note length in samples: `units + 1` sixteenths of a bar at 120 BPM.
fn parse_length(units: u8, sample_rate: u32) -> (n: u64)
    requires
        units <= 35,
    ensures
        n == spec_length_samples(units, sample_rate),
{
    let u: u64 = units as u64 + 1;
    let r: u64 = sample_rate as u64;
    assert(u * r <= 36 * 0xffff_ffff) by (nonlinear_arith)
        requires
            u <= 36,
            r <= 0xffff_ffff,
    ;
    (u * r) / 8
}

/// The characters of a string, in order.
pub(crate) fn str_chars(s: &str) -> (v: Vec<char>)
    ensures
        v@ == s@,
{
    let mut v: Vec<char> = Vec::new();
    for c in it: s.chars()
        invariant
            v@ == it.seq().take(it.index() as int),
            it.seq() == s@,
    {
        v.push(c);
    }
    v
}

/// Bounds `(start, end)` of `cs` with surrounding whitespace removed.
fn trim_bounds(cs: &Vec<char>) -> (r: (usize, usize))
    ensures
        r.0 <= r.1 <= cs@.len(),
        cs@.subrange(r.0 as int, r.1 as int) == spec_trim(cs@),
{
    let len = cs.len();
    let mut start: usize = 0;
    assert(cs@.subrange(0, len as int) =~= cs@);
    while start < len && char_is_whitespace(cs[start])
        invariant
            start <= len == cs@.len(),
            spec_trim_start(cs@) == spec_trim_start(cs@.subrange(start as int, len as int)),
        decreases len - start,
    {
        assert(cs@.subrange(start as int, len as int).drop_first() =~= cs@.subrange(
            start + 1,
            len as int,
        ));
        start = start + 1;
    }
    let ghost t = cs@.subrange(start as int, len as int);
    assert(spec_trim_start(cs@) == t) by {
        if start < len {
            assert(t[0] == cs@[start as int]);
        }
    }
    let mut end: usize = len;
    while end > start && char_is_whitespace(cs[end - 1])
        invariant
            start <= end <= len == cs@.len(),
            t == cs@.subrange(start as int, len as int),
            spec_trim_end(t) == spec_trim_end(cs@.subrange(start as int, end as int)),
        decreases end - start,
    {
        assert(cs@.subrange(start as int, end as int).drop_last() =~= cs@.subrange(
            start as int,
            end - 1,
        ));
        end = end - 1;
    }
    (start, end)
}

/// Parse a command given as characters (see `parse_command`).
pub fn parse_chars(cs: &Vec<char>, sample_rate: u32) -> (res: Option<NoteCommand>)
    ensures
        res == spec_parse(cs@, sample_rate),
{
    let (start, end) = trim_bounds(cs);
    let ghost s = spec_trim(cs@);
    let n = end - start;
    if n < 3 {
        return None;
    }
    assert(s[0] == cs@[start as int]);
    assert(s[1] == cs@[start + 1]);
    assert(s[2] == cs@[start + 2]);
    // Channel: first char, 0-F
    let channel = match parse_base36(cs[start]) {
        Some(c) => c,
        None => return None,
    };
    // Octave: second char, digit 0-9
    let octave = match decimal_digit(cs[start + 1]) {
        Some(o) => o,
        None => return None,
    };
    if channel > 15 {
        return None;
    }
    // Note: third char
    let note_char = cs[start + 2];
    // Optional velocity (4th char); default half velocity
    let (velocity_num, velocity_den) = if n > 3 {
        assert(s[3] == cs@[start + 3]);
        (parse_velocity(cs[start + 3]), 35u8)
    } else {
        (1u8, 2u8)
    };
    // Optional length (5th char); without it the note lasts one sixteenth of a bar
    let length_units = if n > 4 {
        assert(s[4] == cs@[start + 4]);
        parse_length_units(cs[start + 4])
    } else {
        0u8
    };
    // Optional note offset (6th char)
    let note_offset = if n > 5 {
        assert(s[5] == cs@[start + 5]);
        match parse_base36(cs[start + 5]) {
            Some(o) => o,
            None => return None,
        }
    } else {
        0u8
    };
    let midi_note = match note_to_midi(octave, note_char, note_offset as i32) {
        Some(m) => m,
        None => return None,
    };
    Some(
        NoteCommand {
            channel: channel as usize,
            midi_note,
            velocity_num,
            velocity_den,
            length_units,
            length_samples: parse_length(length_units, sample_rate),
        },
    )
}

/// Parse a UDP command string into a `NoteCommand`.
/// Format: `[channel][octave][note][velocity?][length?][note_offset?]`
/// - channel: hex digit 0-F (0-15)
/// - octave: digit 0-9
/// - note: letter (a-z) or digit (0-9), see `spec_note_semitone`
/// - velocity: optional base-36 digit (0-Z is 0 to 1 in 35ths), default 1/2
/// - length: optional base-36 digit, `n` lasting `n + 1` sixteenths of a bar;
///   without it the note lasts one sixteenth of a bar
/// - note_offset: optional base-36 digit (chromatic shift)
pub fn parse_command(input: &str, sample_rate: u32) -> (res: Option<NoteCommand>)
    ensures
        res == spec_parse(input@, sample_rate),
{
    let cs = str_chars(input);
    parse_chars(&cs, sample_rate)
}

// ---------------------------------------------------------------------------
// Packets

/// The pieces of `s` between `;` separators, in order (as `str::split`
/// gives them: an empty input is one empty piece).
pub open spec fn spec_split_commands(s: Seq<char>) -> Seq<Seq<char>>
    decreases s.len(),
{
    if s.len() == 0 {
        seq![Seq::<char>::empty()]
    } else {
        let prev = spec_split_commands(s.drop_last());
        if s.last() == ';' {
            prev.push(Seq::<char>::empty())
        } else {
            prev.update(prev.len() - 1, prev.last().push(s.last()))
        }
    }
}

/// For each piece that is not blank, in order: the piece without surrounding
/// whitespace, and the command it spells.
pub open spec fn spec_packet_entries(pieces: Seq<Seq<char>>, sample_rate: u32) -> Seq<
    (Seq<char>, Option<NoteCommand>),
>
    decreases pieces.len(),
{
    if pieces.len() == 0 {
        seq![]
    } else {
        let prev = spec_packet_entries(pieces.drop_last(), sample_rate);
        let t = spec_trim(pieces.last());
        if t.len() == 0 {
            prev
        } else {
            prev.push((t, spec_parse(pieces.last(), sample_rate)))
        }
    }
}

/// One command of a packet: its text without surrounding whitespace, and the
/// note it spells, if any.
pub struct PacketCommand {
    pub text: Vec<char>,
    pub command: Option<NoteCommand>,
}

pub open spec fn spec_entries_view(out: Seq<PacketCommand>) -> Seq<(Seq<char>, Option<NoteCommand>)> {
    out.map_values(|p: PacketCommand| (p.text@, p.command))
}

fn push_entry(out: &mut Vec<PacketCommand>, piece: &Vec<char>, sample_rate: u32)
    ensures
        spec_entries_view(final(out)@) == (if spec_trim(piece@).len() == 0 {
            spec_entries_view(old(out)@)
        } else {
            spec_entries_view(old(out)@).push((spec_trim(piece@), spec_parse(piece@, sample_rate)))
        }),
{
    let (start, end) = trim_bounds(piece);
    if start == end {
        return;
    }
    let mut text: Vec<char> = Vec::new();
    let mut k = start;
    while k < end
        invariant
            start <= k <= end <= piece@.len(),
            text@ == piece@.subrange(start as int, k as int),
        decreases end - k,
    {
        text.push(piece[k]);
        k = k + 1;
        assert(text@ =~= piece@.subrange(start as int, k as int));
    }
    let command = parse_chars(piece, sample_rate);
    let ghost before = out@;
    out.push(PacketCommand { text, command });
    assert(spec_entries_view(out@) =~= spec_entries_view(before).push(
        (spec_trim(piece@), spec_parse(piece@, sample_rate)),
    ));
}

/// Split a packet's text on `;` and parse every command that is not blank,
/// in order, keeping each command's trimmed text beside its result.
pub fn parse_packet(text: &str, sample_rate: u32) -> (out: Vec<PacketCommand>)
    ensures
        spec_entries_view(out@) == spec_packet_entries(spec_split_commands(text@), sample_rate),
{
    let cs = str_chars(text);
    let n = cs.len();
    let mut out: Vec<PacketCommand> = Vec::new();
    let mut cur: Vec<char> = Vec::new();
    assert(cs@.take(0) =~= Seq::<char>::empty());
    assert(spec_split_commands(cs@.take(0)).drop_last() =~= Seq::<Seq<char>>::empty());
    let mut i: usize = 0;
    while i < n
        invariant
            i <= n == cs@.len(),
            spec_split_commands(cs@.take(i as int)).len() >= 1,
            spec_split_commands(cs@.take(i as int)).last() == cur@,
            spec_entries_view(out@) == spec_packet_entries(
                spec_split_commands(cs@.take(i as int)).drop_last(),
                sample_rate,
            ),
        decreases n - i,
    {
        let c = cs[i];
        let ghost sp = spec_split_commands(cs@.take(i as int));
        assert(cs@.take(i + 1).drop_last() =~= cs@.take(i as int));
        assert(cs@.take(i + 1).last() == c);
        if c == ';' {
            push_entry(&mut out, &cur, sample_rate);
            cur = Vec::new();
            assert(spec_split_commands(cs@.take(i + 1)) == sp.push(Seq::<char>::empty()));
            assert(sp.push(Seq::<char>::empty()).drop_last() =~= sp);
            assert(sp =~= sp.drop_last().push(sp.last()));
        } else {
            let ghost old_cur = cur@;
            cur.push(c);
            let ghost nsp = sp.update(sp.len() - 1, sp.last().push(c));
            assert(spec_split_commands(cs@.take(i + 1)) == nsp);
            assert(nsp.drop_last() =~= sp.drop_last());
        }
        i = i + 1;
    }
    assert(cs@.take(n as int) =~= cs@);
    let ghost sp = spec_split_commands(cs@);
    assert(sp =~= sp.drop_last().push(sp.last()));
    push_entry(&mut out, &cur, sample_rate);
    out
}

// ---------------------------------------------------------------------------
// Laws

/// Two character sequences that agree once ASCII letters are lower-cased.
pub open spec fn spec_same_ignoring_case(a: Seq<char>, b: Seq<char>) -> bool {
    &&& a.len() == b.len()
    &&& forall|i: int| 0 <= i < a.len() ==> spec_ascii_lower(#[trigger] a[i]) == spec_ascii_lower(
        b[i],
    )
}

proof fn lemma_char_ignoring_case(x: char, y: char)
    requires
        spec_ascii_lower(x) == spec_ascii_lower(y),
    ensures
        spec_is_whitespace(x) == spec_is_whitespace(y),
        spec_base36(x) == spec_base36(y),
        spec_decimal_digit(x) == spec_decimal_digit(y),
        spec_note_semitone(x) == spec_note_semitone(y),
        spec_velocity_units(x) == spec_velocity_units(y),
        spec_length_units(x) == spec_length_units(y),
{
    if x != y {
        if 'A' <= x <= 'Z' {
            assert(spec_ascii_lower(x) as u32 == (x as u32) + 32);
        }
        if 'A' <= y <= 'Z' {
            assert(spec_ascii_lower(y) as u32 == (y as u32) + 32);
        }
    }
}

proof fn lemma_trim_start_ignoring_case(a: Seq<char>, b: Seq<char>)
    requires
        spec_same_ignoring_case(a, b),
    ensures
        spec_same_ignoring_case(spec_trim_start(a), spec_trim_start(b)),
    decreases a.len(),
{
    if a.len() > 0 {
        lemma_char_ignoring_case(a[0], b[0]);
        if spec_is_whitespace(a[0]) {
            assert forall|i: int| 0 <= i < a.len() - 1 implies spec_ascii_lower(
                #[trigger] a.drop_first()[i],
            ) == spec_ascii_lower(b.drop_first()[i]) by {
                assert(a.drop_first()[i] == a[i + 1]);
                assert(b.drop_first()[i] == b[i + 1]);
            }
            lemma_trim_start_ignoring_case(a.drop_first(), b.drop_first());
        }
    }
}

proof fn lemma_trim_end_ignoring_case(a: Seq<char>, b: Seq<char>)
    requires
        spec_same_ignoring_case(a, b),
    ensures
        spec_same_ignoring_case(spec_trim_end(a), spec_trim_end(b)),
    decreases a.len(),
{
    if a.len() > 0 {
        lemma_char_ignoring_case(a.last(), b.last());
        if spec_is_whitespace(a.last()) {
            assert forall|i: int| 0 <= i < a.len() - 1 implies spec_ascii_lower(
                #[trigger] a.drop_last()[i],
            ) == spec_ascii_lower(b.drop_last()[i]) by {
                assert(a.drop_last()[i] == a[i]);
                assert(b.drop_last()[i] == b[i]);
            }
            lemma_trim_end_ignoring_case(a.drop_last(), b.drop_last());
        }
    }
}

/// Commands are case-insensitive: two inputs that differ only in the case
/// of ASCII letters spell the same command.
pub proof fn lemma_parse_ignores_case(a: Seq<char>, b: Seq<char>, sample_rate: u32)
    requires
        spec_same_ignoring_case(a, b),
    ensures
        spec_parse(a, sample_rate) == spec_parse(b, sample_rate),
{
    lemma_trim_start_ignoring_case(a, b);
    lemma_trim_end_ignoring_case(spec_trim_start(a), spec_trim_start(b));
    let sa = spec_trim(a);
    let sb = spec_trim(b);
    if sa.len() >= 3 {
        lemma_char_ignoring_case(sa[0], sb[0]);
        lemma_char_ignoring_case(sa[1], sb[1]);
        lemma_char_ignoring_case(sa[2], sb[2]);
        if sa.len() > 3 {
            lemma_char_ignoring_case(sa[3], sb[3]);
        }
        if sa.len() > 4 {
            lemma_char_ignoring_case(sa[4], sb[4]);
        }
        if sa.len() > 5 {
            lemma_char_ignoring_case(sa[5], sb[5]);
        }
    }
}

/// Every parsed command addresses one of the 16 channels and a MIDI note
/// 0-127, has a velocity between 0 and 1, and lasts `length_units + 1`
/// sixteenths of a two-second bar.
pub proof fn lemma_parse_ranges(input: Seq<char>, sample_rate: u32)
    ensures
        spec_parse(input, sample_rate) matches Some(c) ==> {
            &&& c.channel < 16
            &&& c.midi_note <= 127
            &&& 0 < c.velocity_den
            &&& c.velocity_num <= c.velocity_den
            &&& c.length_units <= 35
            &&& c.length_samples == (c.length_units + 1) * sample_rate / 8
        },
{
    let s = spec_trim(input);
    if s.len() > 4 {
        lemma_base36_range(s[4]);
    }
    if s.len() > 3 {
        lemma_base36_range(s[3]);
    }
    if let Some(c) = spec_parse(input, sample_rate) {
        assert((c.length_units + 1) * sample_rate <= 36 * 0xffff_ffff) by (nonlinear_arith)
            requires
                c.length_units <= 35,
                sample_rate <= 0xffff_ffff,
        ;
    }
}

proof fn lemma_trim_unchanged(t: Seq<char>)
    requires
        t.len() > 0,
        !spec_is_whitespace(t[0]),
        !spec_is_whitespace(t.last()),
    ensures
        spec_trim(t) == t,
{
    assert(spec_trim_start(t) == t);
    assert(spec_trim_end(t) == t);
}

proof fn lemma_alnum_not_whitespace(c: char)
    requires
        ('0' <= c <= '9') || ('a' <= c <= 'z') || ('A' <= c <= 'Z'),
    ensures
        !spec_is_whitespace(c),
{
}

/// A sixth character that is a base-36 digit shifts the note up by its value
/// (0-9 for `0`-`9`, 10-35 for `a`-`z` in either case): the command reads as
/// the same command with offset `0` and its note raised by that many
/// semitones, and it is rejected exactly when the raised note passes 127.
pub proof fn lemma_offset_shifts_note(s: Seq<char>, d: char, sample_rate: u32)
    requires
        s.len() >= 6,
        !spec_is_whitespace(s[0]),
        !spec_is_whitespace(s.last()),
        ('0' <= d <= '9') || ('a' <= d <= 'z') || ('A' <= d <= 'Z'),
    ensures
        ({
            let k: int = if '0' <= d <= '9' {
                d as int - '0' as int
            } else if 'a' <= d <= 'z' {
                d as int - 'a' as int + 10
            } else {
                d as int - 'A' as int + 10
            };
            spec_parse(s.update(5, d), sample_rate) == match spec_parse(s.update(5, '0'), sample_rate) {
                Some(c) => if c.midi_note + k <= 127 {
                    Some(NoteCommand { midi_note: (c.midi_note + k) as u8, ..c })
                } else {
                    None
                },
                None => None,
            }
        }),
{
    let t0 = s.update(5, '0');
    let td = s.update(5, d);
    lemma_alnum_not_whitespace(d);
    lemma_alnum_not_whitespace('0');
    assert(t0.last() == (if s.len() == 6 { '0' } else { s.last() }));
    assert(td.last() == (if s.len() == 6 { d } else { s.last() }));
    lemma_trim_unchanged(t0);
    lemma_trim_unchanged(td);
    if 'A' <= d <= 'Z' {
        assert(spec_ascii_lower(d) as u32 == (d as u32) + 32);
    }
}

/// Whether `c` is an ASCII digit or letter.
pub open spec fn spec_is_alnum(c: char) -> bool {
    ('0' <= c <= '9') || ('a' <= c <= 'z') || ('A' <= c <= 'Z')
}

/// The value of an ASCII digit or letter read in base 36.
pub open spec fn spec_alnum_value(c: char) -> int {
    if '0' <= c <= '9' {
        c as int - '0' as int
    } else if 'a' <= c <= 'z' {
        c as int - 'a' as int + 10
    } else {
        c as int - 'A' as int + 10
    }
}

proof fn lemma_base36_is_alnum_value(c: char)
    ensures
        spec_base36(c) is Some <==> spec_is_alnum(c),
        spec_is_alnum(c) ==> spec_base36(c) == Some(spec_alnum_value(c) as u8),
{
    if 'A' <= c <= 'Z' {
        assert(spec_ascii_lower(c) as u32 == (c as u32) + 32);
    }
}

/// The fields of a command read off its characters: the channel is the
/// first character in base 36, and a channel past 15 rejects the command;
/// the velocity is the fourth character in 35ths (8/35 for a character that
/// is no digit or letter, one half when there is none); the length is the
/// fifth character (4 for a character that is no digit or letter, 0 when
/// there is none), and the note lasts that many plus one sixteenths of a
/// two-second bar.
pub proof fn lemma_parse_fields(s: Seq<char>, sample_rate: u32)
    requires
        s.len() >= 3,
        !spec_is_whitespace(s[0]),
        !spec_is_whitespace(s.last()),
    ensures
        spec_is_alnum(s[0]) && spec_alnum_value(s[0]) > 15 ==> spec_parse(s, sample_rate) is None,
        !spec_is_alnum(s[0]) ==> spec_parse(s, sample_rate) is None,
        spec_parse(s, sample_rate) matches Some(c) ==> {
            &&& c.channel == spec_alnum_value(s[0])
            &&& s.len() == 3 ==> c.velocity_num == 1 && c.velocity_den == 2
            &&& s.len() > 3 && spec_is_alnum(s[3]) ==> c.velocity_num == spec_alnum_value(s[3])
                && c.velocity_den == 35
            &&& s.len() > 3 && !spec_is_alnum(s[3]) ==> c.velocity_num == 8 && c.velocity_den == 35
            &&& s.len() <= 4 ==> c.length_units == 0
            &&& s.len() > 4 && spec_is_alnum(s[4]) ==> c.length_units == spec_alnum_value(s[4])
            &&& s.len() > 4 && !spec_is_alnum(s[4]) ==> c.length_units == 4
            &&& c.length_samples == (c.length_units + 1) * sample_rate / 8
        },
{
    lemma_trim_unchanged(s);
    lemma_base36_is_alnum_value(s[0]);
    if s.len() > 3 {
        lemma_base36_is_alnum_value(s[3]);
    }
    if s.len() > 4 {
        lemma_base36_is_alnum_value(s[4]);
    }
    lemma_parse_ranges(s, sample_rate);
}

/// Raising the octave digit by one raises the note by an octave (12
/// semitones) and changes nothing else; the command is rejected exactly when
/// the raised note passes 127.
pub proof fn lemma_octave_raises_note(s: Seq<char>, o: char, sample_rate: u32)
    requires
        s.len() >= 3,
        !spec_is_whitespace(s[0]),
        !spec_is_whitespace(s.last()),
        '0' <= o <= '8',
    ensures
        ({
            let up = ((o as u32) + 1) as char;
            spec_parse(s.update(1, up), sample_rate) == match spec_parse(s.update(1, o), sample_rate) {
                Some(c) => if c.midi_note + 12 <= 127 {
                    Some(NoteCommand { midi_note: (c.midi_note + 12) as u8, ..c })
                } else {
                    None
                },
                None => None,
            }
        }),
{
    let up = ((o as u32) + 1) as char;
    let t0 = s.update(1, o);
    let t1 = s.update(1, up);
    assert('0' <= up <= '9');
    lemma_alnum_not_whitespace(o);
    lemma_alnum_not_whitespace(up);
    assert(t0.last() == (if s.len() == 2 { o } else { s.last() }));
    assert(t1.last() == (if s.len() == 2 { up } else { s.last() }));
    lemma_trim_unchanged(t0);
    lemma_trim_unchanged(t1);
}

/// A parse result with its note raised by `j` semitones: rejected when the
/// raised note passes 127.
pub open spec fn spec_raise_note(r: Option<NoteCommand>, j: int) -> Option<NoteCommand> {
    match r {
        Some(c) => if c.midi_note + j <= 127 {
            Some(NoteCommand { midi_note: (c.midi_note + j) as u8, ..c })
        } else {
            None
        },
        None => None,
    }
}

/// The note character names a note relative to C of the octave: `c d e f g a
/// b` are 0 2 4 5 7 9 11 semitones above it, `h` to `z` continue from 12
/// upward, and `0` to `9` lie 10 down to 1 semitones below it. A command
/// with a letter reads as the same command with `c` and its note raised by
/// that many semitones; a command with `c` reads as the same command with a
/// digit and its note raised by the digit's distance below C. Either is
/// rejected exactly when the raised note passes 127.
pub proof fn lemma_note_letters(s: Seq<char>, x: char, sample_rate: u32)
    requires
        s.len() >= 3,
        !spec_is_whitespace(s[0]),
        !spec_is_whitespace(s.last()),
        ('a' <= x <= 'z') || ('0' <= x <= '9'),
    ensures
        ({
            let k: int = if x == 'c' {
                0
            } else if x == 'd' {
                2
            } else if x == 'e' {
                4
            } else if x == 'f' {
                5
            } else if x == 'g' {
                7
            } else if x == 'a' {
                9
            } else if x == 'b' {
                11
            } else if 'h' <= x <= 'z' {
                x as int - 'h' as int + 12
            } else {
                x as int - '0' as int - 10
            };
            &&& k >= 0 ==> spec_parse(s.update(2, x), sample_rate) == spec_raise_note(
                spec_parse(s.update(2, 'c'), sample_rate),
                k,
            )
            &&& k < 0 ==> spec_parse(s.update(2, 'c'), sample_rate) == spec_raise_note(
                spec_parse(s.update(2, x), sample_rate),
                -k,
            )
        }),
{
    let t0 = s.update(2, 'c');
    let t1 = s.update(2, x);
    lemma_alnum_not_whitespace(x);
    lemma_alnum_not_whitespace('c');
    assert(t0.last() == (if s.len() == 3 { 'c' } else { s.last() }));
    assert(t1.last() == (if s.len() == 3 { x } else { s.last() }));
    lemma_trim_unchanged(t0);
    lemma_trim_unchanged(t1);
    let k: int = if x == 'c' {
        0
    } else if x == 'd' {
        2
    } else if x == 'e' {
        4
    } else if x == 'f' {
        5
    } else if x == 'g' {
        7
    } else if x == 'a' {
        9
    } else if x == 'b' {
        11
    } else if 'h' <= x <= 'z' {
        x as int - 'h' as int + 12
    } else {
        x as int - '0' as int - 10
    };
    assert(spec_ascii_lower(x) == x);
    assert(spec_note_semitone(x) == Some(k));
    assert(spec_note_semitone('c') == Some(0int));
    assert(t0[2] == 'c' && t1[2] == x);
    assert(t0[0] == t1[0] && t0[1] == t1[1]);
    if t0.len() > 3 {
        assert(t0[3] == t1[3]);
    }
    if t0.len() > 4 {
        assert(t0[4] == t1[4]);
    }
    if t0.len() > 5 {
        assert(t0[5] == t1[5]);
    }
    if let Some(oc) = spec_decimal_digit(t0[1]) {
        let off = if t0.len() > 5 { spec_base36(t0[5]) } else { Some(0u8) };
        if let Some(o2) = off {
            lemma_note_shift(oc, x, o2 as int, k);
        }
    }
}

proof fn lemma_note_shift(octave: u8, x: char, offset: int, k: int)
    requires
        offset >= 0,
        k >= -10,
        spec_note_semitone(x) == Some(k),
    ensures
        k >= 0 ==> spec_note_to_midi(octave, x, offset) == match spec_note_to_midi(octave, 'c', offset) {
            Some(m) => if m + k <= 127 {
                Some((m + k) as u8)
            } else {
                None
            },
            None => None,
        },
        k < 0 ==> spec_note_to_midi(octave, 'c', offset) == match spec_note_to_midi(octave, x, offset) {
            Some(m) => if m - k <= 127 {
                Some((m - k) as u8)
            } else {
                None
            },
            None => None,
        },
{
    assert(spec_note_semitone('c') == Some(0int));
}

/// The pieces joined back together, with a `;` between neighbours.
pub open spec fn spec_join_commands(pieces: Seq<Seq<char>>) -> Seq<char>
    decreases pieces.len(),
{
    if pieces.len() <= 1 {
        if pieces.len() == 0 { seq![] } else { pieces[0] }
    } else {
        spec_join_commands(pieces.drop_last()).push(';') + pieces.last()
    }
}

/// Splitting a packet on `;` cuts it into at least one piece, no piece holds
/// a `;`, and joining the pieces with `;` gives back the packet.
pub proof fn lemma_split_join(s: Seq<char>)
    ensures
        spec_split_commands(s).len() >= 1,
        forall|i: int|
            0 <= i < spec_split_commands(s).len() ==> !(#[trigger] spec_split_commands(s)[i]).contains(';'),
        spec_join_commands(spec_split_commands(s)) == s,
    decreases s.len(),
{
    if s.len() > 0 {
        let prev = s.drop_last();
        let c = s.last();
        lemma_split_join(prev);
        let ps = spec_split_commands(prev);
        let qs = spec_split_commands(s);
        if c == ';' {
            assert(qs == ps.push(Seq::<char>::empty()));
            assert(qs.drop_last() =~= ps);
            assert forall|i: int| 0 <= i < qs.len() implies !(#[trigger] qs[i]).contains(';') by {
                if i < ps.len() {
                    assert(qs[i] == ps[i]);
                } else {
                    assert(qs[i] =~= Seq::<char>::empty());
                }
            }
            assert(spec_join_commands(qs) =~= prev.push(';'));
            assert(prev.push(';') =~= s);
        } else {
            let last = ps.last().push(c);
            assert(qs == ps.update(ps.len() - 1, last));
            assert forall|i: int| 0 <= i < qs.len() implies !(#[trigger] qs[i]).contains(';') by {
                if i < ps.len() - 1 {
                    assert(qs[i] == ps[i]);
                } else {
                    assert(qs[i] == last);
                    assert(!ps[ps.len() - 1].contains(';'));
                    if last.contains(';') {
                        let j = choose|j: int| 0 <= j < last.len() && last[j] == ';';
                        if j < ps.last().len() {
                            assert(ps.last()[j] == ';');
                        }
                    }
                }
            }
            if ps.len() == 1 {
                assert(spec_join_commands(qs) == qs[0]);
                assert(qs[0] =~= s);
            } else {
                assert(qs.drop_last() =~= ps.drop_last());
                assert(spec_join_commands(qs) == spec_join_commands(ps.drop_last()).push(';') + last);
                assert(spec_join_commands(ps) == spec_join_commands(ps.drop_last()).push(';') + ps.last());
                assert(spec_join_commands(qs) =~= spec_join_commands(ps).push(c));
                assert(prev.push(c) =~= s);
            }
        }
    }
}

proof fn lemma_trim_start_shape(s: Seq<char>)
    ensures
        spec_trim_start(s).len() > 0 ==> !spec_is_whitespace(spec_trim_start(s)[0]),
        exists|k: int| 0 <= k <= s.len() && spec_trim_start(s) == s.subrange(k, s.len() as int),
    decreases s.len(),
{
    if s.len() > 0 && spec_is_whitespace(s[0]) {
        lemma_trim_start_shape(s.drop_first());
        let k = choose|k: int|
            0 <= k <= s.drop_first().len() && spec_trim_start(s.drop_first()) == s.drop_first().subrange(
                k,
                s.drop_first().len() as int,
            );
        assert(s.drop_first().subrange(k, s.drop_first().len() as int) =~= s.subrange(k + 1, s.len() as int));
    } else {
        assert(s.subrange(0, s.len() as int) =~= s);
    }
}

proof fn lemma_trim_end_shape(s: Seq<char>)
    ensures
        spec_trim_end(s).len() > 0 ==> !spec_is_whitespace(spec_trim_end(s).last()),
        exists|k: int| 0 <= k <= s.len() && spec_trim_end(s) == s.subrange(0, k),
    decreases s.len(),
{
    if s.len() > 0 && spec_is_whitespace(s.last()) {
        lemma_trim_end_shape(s.drop_last());
        let k = choose|k: int|
            0 <= k <= s.drop_last().len() && spec_trim_end(s.drop_last()) == s.drop_last().subrange(0, k);
        assert(s.drop_last().subrange(0, k) =~= s.subrange(0, k));
    } else {
        assert(s.subrange(0, s.len() as int) =~= s);
    }
}

/// Trimming twice is trimming once: the trimmed text neither starts nor
/// ends with whitespace.
pub proof fn lemma_trim_idempotent(s: Seq<char>)
    ensures
        spec_trim(spec_trim(s)) == spec_trim(s),
        spec_trim(s).len() > 0 ==> !spec_is_whitespace(spec_trim(s)[0]) && !spec_is_whitespace(
            spec_trim(s).last(),
        ),
{
    let a = spec_trim_start(s);
    let t = spec_trim_end(a);
    lemma_trim_start_shape(s);
    lemma_trim_end_shape(a);
    if t.len() > 0 {
        let k = choose|k: int| 0 <= k <= a.len() && t == a.subrange(0, k);
        assert(t[0] == a[0]);
        lemma_trim_unchanged(t);
    } else {
        assert(spec_trim_start(t) == t);
        assert(spec_trim_end(t) == t);
    }
}

/// Every entry of a packet is a non-blank command text without surrounding
/// whitespace, and its command is exactly what that text parses to.
pub proof fn lemma_packet_entries_parse(pieces: Seq<Seq<char>>, sample_rate: u32)
    ensures
        forall|i: int|
            0 <= i < spec_packet_entries(pieces, sample_rate).len() ==> {
                let (t, c) = #[trigger] spec_packet_entries(pieces, sample_rate)[i];
                &&& t.len() > 0
                &&& spec_trim(t) == t
                &&& c == spec_parse(t, sample_rate)
            },
    decreases pieces.len(),
{
    if pieces.len() > 0 {
        let prev = pieces.drop_last();
        lemma_packet_entries_parse(prev, sample_rate);
        lemma_trim_idempotent(pieces.last());
    }
}

proof fn lemma_base36_range(c: char)
    ensures
        spec_base36(c) matches Some(v) ==> v <= 35,
        spec_velocity_units(c) <= 35,
        spec_length_units(c) <= 35,
{
}

/// Writing a note's name letter in the name's octave, one offset step up for
/// a sharp, gives back the note: for every MIDI note from C0 (12) to 127.
pub proof fn lemma_note_name_round_trip(midi_note: u8)
    requires
        12 <= midi_note <= 127,
    ensures
        ({
            let name = spec_note_name(midi_note);
            let sharp: int = if name[1] == '#' { 1 } else { 0 };
            spec_note_to_midi(spec_note_octave(midi_note) as u8, name[0], sharp) == Some(midi_note)
        }),
{
    let pc = midi_note % 12;
    reveal_strlit("C");
    reveal_strlit("C#");
    reveal_strlit("D");
    reveal_strlit("D#");
    reveal_strlit("E");
    reveal_strlit("F");
    reveal_strlit("F#");
    reveal_strlit("G");
    reveal_strlit("G#");
    reveal_strlit("A");
    reveal_strlit("A#");
    reveal_strlit("B");
    reveal_strlit("0");
    reveal_strlit("1");
    reveal_strlit("2");
    reveal_strlit("3");
    reveal_strlit("4");
    reveal_strlit("5");
    reveal_strlit("6");
    reveal_strlit("7");
    reveal_strlit("8");
    reveal_strlit("9");
}

} // verus!

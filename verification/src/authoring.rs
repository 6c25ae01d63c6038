//! Authoring helpers of the song detail page: key shifting and LRC
//! timestamps.
use vstd::prelude::*;

use crate::text::{chars_of, decimal2, owned, push_char, push_decimal2, push_str, str_equal};

verus! {

/// The twelve pitch classes, sharps only, from C.
pub open spec fn spec_notes() -> Seq<&'static str> {
    seq!["C", "C#", "D", "D#", "E", "F", "F#", "G", "G#", "A", "A#", "B"]
}

fn notes() -> (notes: Vec<&'static str>)
    ensures
        notes@ == spec_notes(),
{
    let notes = vec!["C", "C#", "D", "D#", "E", "F", "F#", "G", "G#", "A", "A#", "B"];
    assert(notes@ =~= spec_notes());
    notes
}

/// The position of `note` among the pitch classes.
pub open spec fn note_index(note: Seq<char>) -> Option<int> {
    if note == "C"@ {
        Some(0)
    } else if note == "C#"@ {
        Some(1)
    } else if note == "D"@ {
        Some(2)
    } else if note == "D#"@ {
        Some(3)
    } else if note == "E"@ {
        Some(4)
    } else if note == "F"@ {
        Some(5)
    } else if note == "F#"@ {
        Some(6)
    } else if note == "G"@ {
        Some(7)
    } else if note == "G#"@ {
        Some(8)
    } else if note == "A"@ {
        Some(9)
    } else if note == "A#"@ {
        Some(10)
    } else if note == "B"@ {
        Some(11)
    } else {
        None
    }
}

/// A key name split into its tonic and its quality (`m` for minor).
pub open spec fn key_parts(key: Seq<char>) -> (Seq<char>, Seq<char>) {
    if key.len() > 0 && key.last() == 'm' {
        (key.drop_last(), "m"@)
    } else {
        (key, Seq::empty())
    }
}

/// `key` moved by `offset` semitones; a key whose tonic is not one of the
/// twelve pitch classes is kept as it is.
pub open spec fn spec_shift_key(key: Seq<char>, offset: int) -> Seq<char> {
    let (note, quality) = key_parts(key);
    match note_index(note) {
        Some(i) => spec_notes()[(i + offset) % 12]@ + quality,
        None => key,
    }
}

/// The name of `original_key` transposed by `offset` semitones (the key
/// part of a key shift; the playback-rate factor is a separate matter).
pub fn shift_key_name(original_key: &str, offset: i32) -> (key: String)
    ensures
        key@ == spec_shift_key(original_key@, offset as int),
{
    let chars = chars_of(original_key);
    let minor = chars.len() > 0 && chars[chars.len() - 1] == 'm';
    let ghost parts = key_parts(original_key@);
    let mut note_chars: Vec<char> = Vec::new();
    let end = if minor {
        chars.len() - 1
    } else {
        chars.len()
    };
    let mut i: usize = 0;
    while i < end
        invariant
            end <= chars.len(),
            i <= end,
            note_chars@ == chars@.subrange(0, i as int),
        decreases end - i,
    {
        note_chars.push(chars[i]);
        i = i + 1;
        assert(note_chars@ =~= chars@.subrange(0, i as int));
    }
    let note = crate::text::string_of(&note_chars);
    proof {
        reveal_strlit("m");
        if minor {
            assert(note@ =~= original_key@.drop_last());
        } else {
            assert(note@ =~= original_key@);
        }
        assert(note@ == parts.0);
    }
    let names = notes();
    let mut index: usize = 0;
    while index < 12
        invariant
            names@ == spec_notes(),
            index <= 12,
            forall|k: int| 0 <= k < index ==> spec_notes()[k]@ != note@,
        ensures
            index <= 12,
            index < 12 ==> spec_notes()[index as int]@ == note@,
            forall|k: int| 0 <= k < index ==> spec_notes()[k]@ != note@,
        decreases 12 - index,
    {
        if str_equal(names[index], note.as_str()) {
            break;
        }
        index = index + 1;
    }
    proof {
        reveal_strlit("C");
        reveal_strlit("C#");
        reveal_strlit("D");
        reveal_strlit("D#");
        reveal_strlit("E");
        reveal_strlit("F");
        reveal_strlit("F#");
        reveal_strlit("G");
        reveal_strlit("G#");
        reveal_strlit("A");
        reveal_strlit("A#");
        reveal_strlit("B");
    }
    if index == 12 {
        assert(note_index(note@) is None);
        return owned(original_key);
    }
    assert(spec_notes()[index as int]@ == note@);
    assert(note_index(note@) == Some(index as int));
    let total: i64 = index as i64 + offset as i64;
    let shifted: usize = if total >= 0 {
        ((total as u64) % 12) as usize
    } else {
        let m = ((-total) as u64) % 12;
        if m == 0 {
            0
        } else {
            (12 - m) as usize
        }
    };
    proof {
        let t = total as int;
        if t < 0 {
            let n = -t;
            let m = n % 12;
            assert(t % 12 == if m == 0 { 0 } else { 12 - m }) by (nonlinear_arith)
                requires
                    n == -t,
                    m == n % 12,
                    t < 0,
            {
                let q = n / 12;
                assert(n == 12 * q + m);
                assert(t == 12 * (-q - 1) + (12 - m));
            }
        }
        assert(shifted as int == t % 12);
    }
    let mut key = owned(names[shifted]);
    if minor {
        push_char(&mut key, 'm');
    }
    proof {
        if minor {
            assert(parts.1 == seq!['m']);
        } else {
            assert(parts.1 =~= Seq::<char>::empty());
        }
        assert(key@ =~= spec_notes()[shifted as int]@ + parts.1);
    }
    key
}

proof fn lemma_note_names_are_not_minor(j: int)
    requires
        0 <= j < 12,
    ensures
        spec_notes()[j]@.len() > 0,
        spec_notes()[j]@.last() != 'm',
        note_index(spec_notes()[j]@) == Some(j),
{
    reveal_strlit("C");
    reveal_strlit("C#");
    reveal_strlit("D");
    reveal_strlit("D#");
    reveal_strlit("E");
    reveal_strlit("F");
    reveal_strlit("F#");
    reveal_strlit("G");
    reveal_strlit("G#");
    reveal_strlit("A");
    reveal_strlit("A#");
    reveal_strlit("B");
    let names = seq!["C"@, "C#"@, "D"@, "D#"@, "E"@, "F"@, "F#"@, "G"@, "G#"@, "A"@, "A#"@, "B"@];
    assert forall|x: int, y: int| 0 <= x < 12 && 0 <= y < 12 && x != y implies names[x]
        != names[y] by {
        if names[x] == names[y] {
            assert(names[x].len() == names[y].len());
            assert(names[x][0] == names[y][0]);
            if names[x].len() == 2 {
                assert(names[x][1] == names[y][1]);
            }
        }
    }
    assert(spec_notes()[j]@ == names[j]);
}

proof fn lemma_shifted_key_parts(j: int, quality: Seq<char>)
    requires
        0 <= j < 12,
        quality == "m"@ || quality == Seq::<char>::empty(),
    ensures
        key_parts(spec_notes()[j]@ + quality) == (spec_notes()[j]@, quality),
{
    reveal_strlit("m");
    lemma_note_names_are_not_minor(j);
    let name = spec_notes()[j]@;
    if quality == Seq::<char>::empty() {
        assert(name + quality =~= name);
    } else {
        assert((name + quality).drop_last() =~= name);
    }
}

/// Shifting by zero semitones, or by a whole octave, keeps the key.
pub proof fn law_shift_by_octave_keeps_key(key: Seq<char>, octaves: int)
    ensures
        spec_shift_key(key, 12 * octaves) == key,
{
    reveal_strlit("m");
    let (note, quality) = key_parts(key);
    if let Some(i) = note_index(note) {
        assert((i + 12 * octaves) % 12 == i) by (nonlinear_arith)
            requires
                0 <= i < 12,
        ;
        lemma_note_names_are_not_minor(i);
        if key.len() > 0 && key.last() == 'm' {
            assert(note + quality =~= key);
        }
        assert(spec_notes()[i]@ == note) by {
            lemma_note_names_are_not_minor(i);
        }
    }
}

/// Shifting twice is shifting once by the sum of the offsets.
pub proof fn law_shifts_compose(key: Seq<char>, a: int, b: int)
    ensures
        spec_shift_key(spec_shift_key(key, a), b) == spec_shift_key(key, a + b),
{
    reveal_strlit("m");
    let (note, quality) = key_parts(key);
    if let Some(i) = note_index(note) {
        let j = (i + a) % 12;
        assert(0 <= j < 12);
        lemma_shifted_key_parts(j, quality);
        lemma_note_names_are_not_minor(j);
        vstd::arithmetic::div_mod::lemma_add_mod_noop_right(b, i + a, 12);
        assert(b + j == j + b);
        assert(b + (i + a) == i + (a + b));
    }
}

pub open spec fn spec_lrc_timestamp(centiseconds: nat) -> Seq<char> {
    decimal2(centiseconds / 6000) + ":"@ + decimal2(centiseconds / 100 % 60) + "."@ + decimal2(
        centiseconds % 100,
    )
}

/// An LRC timestamp `mm:ss.xx` for a position in hundredths of a second;
/// minutes keep growing past 99.
pub fn format_lrc_centiseconds(centiseconds: u64) -> (stamp: String)
    ensures
        stamp@ == spec_lrc_timestamp(centiseconds as nat),
{
    let mut stamp = String::new();
    push_decimal2(&mut stamp, centiseconds / 6000);
    push_str(&mut stamp, ":");
    push_decimal2(&mut stamp, centiseconds / 100 % 60);
    push_str(&mut stamp, ".");
    push_decimal2(&mut stamp, centiseconds % 100);
    assert(stamp@ =~= spec_lrc_timestamp(centiseconds as nat));
    stamp
}

} // verus!

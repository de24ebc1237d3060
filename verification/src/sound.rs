//! Voicepack handling: the track list of a category (one file name per
//! line, empty lines dropped), the random pick of one track, and the rule
//! for which directories count as voicepack choices.

use rand::Rng;
use rand::SeedableRng;
use vstd::prelude::*;

verus! {

/// The byte that separates track names in a category file.
pub const NEWLINE: u8 = 10;

/// The track names in `s` given that `cur` holds the (newline-free) bytes
/// of the name read so far: names are separated by newlines and empty
/// names are dropped.
pub open spec fn lines_rec(s: Seq<u8>, cur: Seq<u8>) -> Seq<Seq<u8>>
    decreases s.len(),
{
    if s.len() == 0 {
        if cur.len() > 0 {
            seq![cur]
        } else {
            Seq::empty()
        }
    } else if s[0] == NEWLINE {
        if cur.len() > 0 {
            seq![cur] + lines_rec(s.drop_first(), Seq::empty())
        } else {
            lines_rec(s.drop_first(), Seq::empty())
        }
    } else {
        lines_rec(s.drop_first(), cur.push(s[0]))
    }
}

/// The track names of a whole category file.
pub open spec fn track_lines_of(s: Seq<u8>) -> Seq<Seq<u8>> {
    lines_rec(s, Seq::empty())
}

/// Every name the split yields is nonempty and free of newlines, as long
/// as the name read so far is.
proof fn lemma_lines_wf(s: Seq<u8>, cur: Seq<u8>)
    requires
        !cur.contains(NEWLINE),
    ensures
        forall|i: int|
            0 <= i < lines_rec(s, cur).len() ==> (#[trigger] lines_rec(s, cur)[i]).len() > 0 && !lines_rec(
                s,
                cur,
            )[i].contains(NEWLINE),
    decreases s.len(),
{
    if s.len() == 0 {
        if cur.len() > 0 {
            assert forall|i: int|
                0 <= i < lines_rec(s, cur).len() implies (#[trigger] lines_rec(s, cur)[i]).len()
                > 0 && !lines_rec(s, cur)[i].contains(NEWLINE) by {
                assert(lines_rec(s, cur)[i] == cur);
            }
        }
    } else if s[0] == NEWLINE {
        assert(!Seq::<u8>::empty().contains(NEWLINE));
        lemma_lines_wf(s.drop_first(), Seq::empty());
        let rest = lines_rec(s.drop_first(), Seq::empty());
        if cur.len() > 0 {
            assert forall|i: int|
                0 <= i < lines_rec(s, cur).len() implies (#[trigger] lines_rec(s, cur)[i]).len()
                > 0 && !lines_rec(s, cur)[i].contains(NEWLINE) by {
                if i == 0 {
                    assert(lines_rec(s, cur)[i] == cur);
                } else {
                    assert(lines_rec(s, cur)[i] == rest[i - 1]);
                }
            }
        } else {
            assert forall|i: int|
                0 <= i < lines_rec(s, cur).len() implies (#[trigger] lines_rec(s, cur)[i]).len()
                > 0 && !lines_rec(s, cur)[i].contains(NEWLINE) by {
                assert(lines_rec(s, cur)[i] == rest[i]);
            }
        }
    } else {
        vstd::seq_lib::lemma_seq_contains_after_push(cur, s[0], NEWLINE);
        lemma_lines_wf(s.drop_first(), cur.push(s[0]));
        let rest = lines_rec(s.drop_first(), cur.push(s[0]));
        assert forall|i: int|
            0 <= i < lines_rec(s, cur).len() implies (#[trigger] lines_rec(s, cur)[i]).len() > 0
            && !lines_rec(s, cur)[i].contains(NEWLINE) by {
            assert(lines_rec(s, cur)[i] == rest[i]);
        }
    }
}

/// Splits a category file into its track names: the newline-separated
/// segments, with empty segments dropped; every name handed back is
/// nonempty and holds no newline.
pub fn track_lines(content: &Vec<u8>) -> (lines: Vec<Vec<u8>>)
    ensures
        lines.deep_view() == track_lines_of(content@),
        forall|i: int|
            0 <= i < lines@.len() ==> (#[trigger] lines@[i])@.len() > 0 && !lines@[i]@.contains(
                NEWLINE,
            ),
{
    let mut lines: Vec<Vec<u8>> = Vec::new();
    let mut cur: Vec<u8> = Vec::new();
    let mut i: usize = 0;
    proof {
        assert(content@.skip(0) =~= content@);
        assert(lines.deep_view() =~= Seq::<Seq<u8>>::empty());
        assert(Seq::<Seq<u8>>::empty() + track_lines_of(content@) =~= track_lines_of(content@));
    }
    while i < content.len()
        invariant
            i <= content@.len(),
            track_lines_of(content@) == lines.deep_view() + lines_rec(
                content@.skip(i as int),
                cur@,
            ),
        decreases content@.len() - i,
    {
        let ghost prev_lines = lines.deep_view();
        let ghost prev_cur = cur@;
        let ghost rest = content@.skip(i as int);
        proof {
            assert(rest[0] == content@[i as int]);
            assert(rest.drop_first() =~= content@.skip(i as int + 1));
        }
        let b: u8 = content[i];
        if b == NEWLINE {
            if cur.len() > 0 {
                lines.push(cur);
                cur = Vec::new();
                proof {
                    assert(lines.deep_view() =~~= prev_lines.push(prev_cur));
                    assert(lines_rec(rest, prev_cur) =~= seq![prev_cur] + lines_rec(
                        rest.drop_first(),
                        Seq::empty(),
                    ));
                    assert(prev_lines + (seq![prev_cur] + lines_rec(
                        rest.drop_first(),
                        Seq::empty(),
                    )) =~= lines.deep_view() + lines_rec(rest.drop_first(), Seq::empty()));
                    assert(cur@ =~= Seq::<u8>::empty());
                }
            } else {
                proof {
                    assert(cur@ =~= Seq::<u8>::empty());
                }
            }
        } else {
            cur.push(b);
            proof {
                assert(cur@ =~= prev_cur.push(b));
            }
        }
        i = i + 1;
    }
    proof {
        assert(content@.skip(i as int) =~= Seq::<u8>::empty());
    }
    if cur.len() > 0 {
        let ghost prev_lines = lines.deep_view();
        let ghost prev_cur = cur@;
        lines.push(cur);
        proof {
            assert(lines.deep_view() =~~= prev_lines.push(prev_cur));
            assert(prev_lines + seq![prev_cur] =~= prev_lines.push(prev_cur));
        }
    } else {
        proof {
            assert(lines.deep_view() + Seq::<Seq<u8>>::empty() =~= lines.deep_view());
        }
    }
    proof {
        assert(!Seq::<u8>::empty().contains(NEWLINE));
        lemma_lines_wf(content@, Seq::<u8>::empty());
        assert forall|j: int|
            0 <= j < lines@.len() implies (#[trigger] lines@[j])@.len() > 0 && !lines@[j]@.contains(
            NEWLINE,
        ) by {
            assert(lines.deep_view()[j] =~= lines@[j]@);
            assert(lines.deep_view()[j] == track_lines_of(content@)[j]);
        }
    }
    lines
}

/// Relies on rand: a standard generator seeded from the operating system's
/// entropy source, and `Rng::gen_range`, which returns a member of the
/// given range and panics only when the range is empty.
#[verifier::external_body]
fn random_below(n: usize) -> (r: usize)
    requires
        n > 0,
    ensures
        r < n,
{
    let mut rng: rand::rngs::StdRng = SeedableRng::from_entropy();
    rng.gen_range(0..n)
}

/// Picks one track name at random: nothing from an empty list, some member
/// of the list otherwise.
pub fn choose_track(names: &Vec<Vec<u8>>) -> (r: Option<&Vec<u8>>)
    ensures
        (r is Some) <==> names@.len() > 0,
        r matches Some(t) ==> exists|i: int| 0 <= i < names@.len() && names@[i] == *t,
{
    if names.len() == 0 {
        None
    } else {
        let i: usize = random_below(names.len());
        Some(&names[i])
    }
}

/// The name of the skeleton directory that never counts as a voicepack.
pub open spec fn template_dir_name() -> Seq<char> {
    "TEMPLATE"@
}

/// A directory entry offers a voicepack choice when it is a directory and
/// is not the skeleton that new voicepacks are copied from.
pub fn is_voicepack_choice(name: &String, is_dir: bool) -> (r: bool)
    ensures
        r == (is_dir && name@ != template_dir_name()),
{
    if !is_dir {
        return false;
    }
    let template: String = "TEMPLATE".to_owned();
    !(*name == template)
}

} // verus!

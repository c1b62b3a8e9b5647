//! Splitting text into runs by writing script, so that each run can be
//! drawn with the script-appropriate font.  A script-neutral (Common)
//! character never forces a run break; it attaches to whichever run is
//! open.  Concatenating the run texts in order reproduces the input.
use vstd::prelude::*;
use crate::textfmt::push_char;

verus! {

/// A character's writing script, as far as the layout engine distinguishes:
/// Thai selects the Thai-optimized font, Common never breaks a run, and any
/// other script is identified by a numeric code so that a script change
/// starts a new run.
#[derive(Debug, Clone, Copy, PartialEq, Eq, Structural)]
pub enum ScriptClass {
    Thai,
    Latin,
    Common,
    Other(u16),
}

/// The script class of a character.  Names the classification that the
/// unicode_script crate reads from the Unicode script property tables: a
/// pure function of the character alone.
pub uninterp spec fn script_class_of(c: char) -> ScriptClass;

/// Relies on unicode_script's `UnicodeScript::script` for `char`: the
/// Unicode script property of the character, depending on the character
/// alone.  Distinct scripts map to distinct class values.
#[verifier::external_body]
fn classify_char(c: char) -> (r: ScriptClass)
    ensures
        r == script_class_of(c),
{
    match unicode_script::UnicodeScript::script(&c) {
        unicode_script::Script::Thai => ScriptClass::Thai,
        unicode_script::Script::Latin => ScriptClass::Latin,
        unicode_script::Script::Common => ScriptClass::Common,
        s => ScriptClass::Other(s as u16),
    }
}

/// One run of consecutive characters sharing a script.
pub struct TextSegment {
    pub text: String,
    pub script: ScriptClass,
}

/// The mathematical value of a run: its characters and script.
#[verifier::ext_equal]
pub struct SegV {
    pub text: Seq<char>,
    pub script: ScriptClass,
}

impl View for TextSegment {
    type V = SegV;

    open spec fn view(&self) -> SegV {
        SegV { text: self.text@, script: self.script }
    }
}

/// The runs of a segment vector, as mathematical values.
pub open spec fn segs_view(v: Seq<TextSegment>) -> Seq<SegV> {
    v.map_values(|t: TextSegment| t@)
}

/// The remaining runs of `s` from position `i` on, given an open run with
/// text `cur` and script `sc`.  A character whose class equals the open
/// run's script, or is Common, joins the run; any other class closes the
/// run and opens a new one.
pub open spec fn spec_segment_rec(s: Seq<char>, i: int, cur: Seq<char>, sc: ScriptClass) -> Seq<
    SegV,
>
    decreases s.len() - i,
{
    if i >= s.len() {
        if cur.len() == 0 {
            Seq::empty()
        } else {
            seq![SegV { text: cur, script: sc }]
        }
    } else {
        let c = s[i];
        let cls = script_class_of(c);
        if cur.len() == 0 {
            spec_segment_rec(s, i + 1, seq![c], cls)
        } else if cls == sc || cls == ScriptClass::Common {
            spec_segment_rec(s, i + 1, cur.push(c), sc)
        } else {
            seq![SegV { text: cur, script: sc }] + spec_segment_rec(s, i + 1, seq![c], cls)
        }
    }
}

/// The script runs of a character sequence.
pub open spec fn spec_segment(s: Seq<char>) -> Seq<SegV> {
    spec_segment_rec(s, 0, Seq::empty(), ScriptClass::Common)
}

/// The concatenation of all run texts, in order.
pub open spec fn concat_runs(runs: Seq<SegV>) -> Seq<char>
    decreases runs.len(),
{
    if runs.len() == 0 {
        Seq::empty()
    } else {
        runs[0].text + concat_runs(runs.drop_first())
    }
}

proof fn lemma_concat_cons(a: SegV, rest: Seq<SegV>)
    ensures
        concat_runs(seq![a] + rest) == a.text + concat_runs(rest),
{
    let whole = seq![a] + rest;
    assert(whole.len() > 0);
    assert(whole[0] == a);
    assert(whole.drop_first() =~= rest);
}

proof fn lemma_segment_rec_concat(s: Seq<char>, i: int, cur: Seq<char>, sc: ScriptClass)
    requires
        0 <= i <= s.len(),
    ensures
        concat_runs(spec_segment_rec(s, i, cur, sc)) == cur + s.skip(i),
    decreases s.len() - i,
{
    if i >= s.len() {
        assert(s.skip(i) =~= Seq::<char>::empty());
        if cur.len() == 0 {
            assert(concat_runs(spec_segment_rec(s, i, cur, sc)) =~= cur + s.skip(i));
        } else {
            assert(concat_runs(seq![SegV { text: cur, script: sc }].drop_first())
                =~= Seq::<char>::empty());
            assert(concat_runs(spec_segment_rec(s, i, cur, sc)) =~= cur + s.skip(i));
        }
    } else {
        let c = s[i];
        let cls = script_class_of(c);
        assert(seq![c] + s.skip(i + 1) =~= s.skip(i));
        if cur.len() == 0 {
            lemma_segment_rec_concat(s, i + 1, seq![c], cls);
            assert(cur + s.skip(i) =~= s.skip(i));
            assert(concat_runs(spec_segment_rec(s, i, cur, sc)) =~= cur + s.skip(i));
        } else if cls == sc || cls == ScriptClass::Common {
            lemma_segment_rec_concat(s, i + 1, cur.push(c), sc);
            assert(cur.push(c) + s.skip(i + 1) =~= cur + s.skip(i));
        } else {
            lemma_segment_rec_concat(s, i + 1, seq![c], cls);
            lemma_concat_cons(
                SegV { text: cur, script: sc },
                spec_segment_rec(s, i + 1, seq![c], cls),
            );
            assert(cur + (seq![c] + s.skip(i + 1)) =~= cur + s.skip(i));
        }
    }
}

/// Segmenting is lossless and order preserving: concatenating the run
/// texts of any string, in order, reproduces the string exactly.
pub proof fn lemma_segment_concat(s: Seq<char>)
    ensures
        concat_runs(spec_segment(s)) == s,
{
    lemma_segment_rec_concat(s, 0, Seq::empty(), ScriptClass::Common);
    assert(Seq::<char>::empty() + s.skip(0) =~= s);
}

proof fn lemma_segment_rec_uniform(s: Seq<char>, i: int, cur: Seq<char>, sc: ScriptClass)
    requires
        0 <= i <= s.len(),
        cur.len() > 0,
        forall|j: int|
            i <= j < s.len() ==> #[trigger] script_class_of(s[j]) == sc || script_class_of(s[j])
                == ScriptClass::Common,
    ensures
        spec_segment_rec(s, i, cur, sc) == seq![SegV { text: cur + s.skip(i), script: sc }],
    decreases s.len() - i,
{
    if i >= s.len() {
        assert(cur + s.skip(i) =~= cur);
    } else {
        let c = s[i];
        lemma_segment_rec_uniform(s, i + 1, cur.push(c), sc);
        assert(cur.push(c) + s.skip(i + 1) =~= cur + s.skip(i));
    }
}

/// A string without a script boundary — every character after the first
/// shares the first character's script or is script-neutral — segments
/// into exactly one run, carrying the whole string and the first
/// character's script.
pub proof fn lemma_segment_uniform(s: Seq<char>)
    requires
        s.len() > 0,
        forall|j: int|
            1 <= j < s.len() ==> #[trigger] script_class_of(s[j]) == script_class_of(s[0])
                || script_class_of(s[j]) == ScriptClass::Common,
    ensures
        spec_segment(s) == seq![SegV { text: s, script: script_class_of(s[0]) }],
{
    let sc = script_class_of(s[0]);
    lemma_segment_rec_uniform(s, 1, seq![s[0]], sc);
    assert(seq![s[0]] + s.skip(1) =~= s);
}

/// Splits a string into runs tagged by writing script.  Consecutive
/// characters sharing a script, or tagged Common, merge into one run; a
/// script change starts a new run.  Output order matches input order and
/// concatenating the run texts reproduces the input exactly.
pub fn segment_text_by_script(text: &str) -> (segs: Vec<TextSegment>)
    ensures
        segs_view(segs@) == spec_segment(text@),
        concat_runs(spec_segment(text@)) == text@,
{
    let n = text.unicode_len();
    let mut segs: Vec<TextSegment> = Vec::new();
    let mut cur = String::new();
    let mut cur_sc = ScriptClass::Common;
    let mut i: usize = 0;
    while i < n
        invariant
            i <= n,
            n == text@.len(),
            spec_segment(text@) == segs_view(segs@) + spec_segment_rec(
                text@,
                i as int,
                cur@,
                cur_sc,
            ),
        decreases n - i,
    {
        let ghost old_segs = segs@;
        let ghost old_cur = cur@;
        let ghost old_sc = cur_sc;
        let c = text.get_char(i);
        let cls = classify_char(c);
        if cur.as_str().is_empty() {
            push_char(&mut cur, c);
            cur_sc = cls;
            proof {
                assert(old_cur =~= Seq::<char>::empty());
                assert(cur@ =~= seq![text@[i as int]]);
            }
        } else if cls == cur_sc || cls == ScriptClass::Common {
            push_char(&mut cur, c);
            proof {
                assert(cur@ =~= old_cur.push(text@[i as int]));
            }
        } else {
            let done = TextSegment { text: cur, script: cur_sc };
            segs.push(done);
            cur = String::new();
            push_char(&mut cur, c);
            cur_sc = cls;
            proof {
                assert(segs_view(segs@) =~= segs_view(old_segs).push(
                    SegV { text: old_cur, script: old_sc },
                ));
                assert(cur@ =~= seq![text@[i as int]]);
                assert(segs_view(old_segs) + (seq![SegV { text: old_cur, script: old_sc }]
                    + spec_segment_rec(text@, i as int + 1, cur@, cur_sc)) =~= segs_view(segs@)
                    + spec_segment_rec(text@, i as int + 1, cur@, cur_sc));
            }
        }
        i = i + 1;
    }
    if !cur.as_str().is_empty() {
        let ghost old_segs = segs@;
        let ghost old_cur = cur@;
        let ghost old_sc = cur_sc;
        segs.push(TextSegment { text: cur, script: cur_sc });
        proof {
            assert(segs_view(segs@) =~= segs_view(old_segs).push(
                SegV { text: old_cur, script: old_sc },
            ));
            assert(segs_view(old_segs) + seq![SegV { text: old_cur, script: old_sc }]
                =~= segs_view(segs@));
        }
    } else {
        proof {
            assert(segs_view(segs@) + Seq::<SegV>::empty() =~= segs_view(segs@));
        }
    }
    proof {
        lemma_segment_concat(text@);
    }
    segs
}

} // verus!

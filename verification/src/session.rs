use vstd::prelude::*;
use crate::rng::Lcg64;
use crate::timeline::distribute_times;
use crate::hexid::{generate_session_id, valid_session_id};
use crate::strutil::str_eq;
use crate::timefmt::{rfc3339_secs_of, rfc3339_utc_secs};

verus! {

/// One unit of course content, as the platform lists it: its
/// identifier and its module type.
pub struct ContentModule {
    pub id: String,
    pub module_type: String,
}

/// The module types that carry no question: viewing them is studying,
/// never testing.
pub open spec fn is_non_question_type(t: Seq<char>) -> bool {
    ||| t == "concept"@
    ||| t == "video"@
    ||| t == "image"@
    ||| t == "delve"@
}

/// The one question type whose answer is reported as an empty ordered
/// sequence rather than an empty object.
pub open spec fn is_toggles_type(t: Seq<char>) -> bool {
    t == "toggles"@
}

/// How many of the listed modules are of a non-question type.
pub open spec fn count_non_question(ms: Seq<ContentModule>) -> int
    decreases ms.len(),
{
    if ms.len() == 0 {
        0
    } else {
        count_non_question(ms.drop_last()) + if is_non_question_type(ms.last().module_type@) {
            1int
        } else {
            0int
        }
    }
}

/// Decides whether a module type is in the non-question set.
pub fn module_is_non_question(t: &str) -> (b: bool)
    ensures
        b == is_non_question_type(t@),
{
    str_eq(t, "concept") || str_eq(t, "video") || str_eq(t, "image") || str_eq(t, "delve")
}

/// The shape of a completed answer field in a module record: absent
/// for non-question modules, an empty ordered sequence for toggles,
/// and an empty object for every other question type.
#[derive(Clone, Copy, PartialEq, Eq, Structural, Debug)]
pub enum AnswerField {
    Absent,
    EmptyObject,
    EmptyList,
}

/// One fabricated per-module completion record.
pub struct ModuleRecord {
    pub session_id: String,
    pub module_order: usize,
    pub module_id: String,
    pub module_type: String,
    pub time_started_ts: i64,
    pub time_finished_ts: i64,
    pub time_started: String,
    pub time_finished: String,
    pub gave_up: bool,
    pub submitted: bool,
    pub completed: bool,
    pub testing_active: bool,
    pub score: u64,
    pub module_score: Option<u64>,
    pub user_answer: AnswerField,
    pub course_id: String,
    pub section_id: String,
    pub content_id: String,
}

/// One fabricated session, fully populated and ready for rendering
/// and transmission.
pub struct SessionRecord {
    pub session_id: String,
    pub user_id: String,
    pub course_id: String,
    pub section_id: String,
    pub content_id: String,
    pub time_started_ts: i64,
    pub time_finished_ts: i64,
    pub time_started: String,
    pub time_finished: String,
    pub session_score: u64,
    pub completed: bool,
    pub modules_correct: u64,
    pub modules_incorrect: u64,
    pub average_score: u64,
    pub modules_gave_up: u64,
    pub modules_studied: u64,
    pub modules_tested: u64,
    pub has_hardest_question_content: bool,
    pub modules: Vec<ModuleRecord>,
}

/// What one module record must look like, given the source module it
/// stands for and its position.
pub open spec fn module_record_matches(
    m: ModuleRecord,
    session_id: Seq<char>,
    course_id: Seq<char>,
    section_id: Seq<char>,
    content_id: Seq<char>,
    src: ContentModule,
    order: int,
) -> bool {
    &&& m.session_id@ == session_id
    &&& m.module_order as int == order
    &&& m.module_id@ == src.id@
    &&& m.module_type@ == src.module_type@
    &&& m.course_id@ == course_id
    &&& m.section_id@ == section_id
    &&& m.content_id@ == content_id
    &&& !m.gave_up
    &&& m.completed
    &&& m.time_started_ts <= m.time_finished_ts
    &&& m.time_started@ == rfc3339_secs_of(m.time_started_ts)
    &&& m.time_finished@ == rfc3339_secs_of(m.time_finished_ts)
    &&& if is_non_question_type(src.module_type@) {
        &&& !m.submitted
        &&& !m.testing_active
        &&& m.score == 0
        &&& m.module_score is None
        &&& m.user_answer == AnswerField::Absent
    } else {
        &&& m.submitted
        &&& m.testing_active
        &&& m.score == 1
        &&& m.module_score == Some(1u64)
        &&& m.user_answer == if is_toggles_type(src.module_type@) {
            AnswerField::EmptyList
        } else {
            AnswerField::EmptyObject
        }
    }
}

/// Everything the synthesizer promises of a produced session record:
/// consistent counters, one matching module record per source module
/// in order, and a plausible timeline anchored at `now` whose elapsed
/// span lies inside the window.
pub open spec fn synthesized_from(
    r: SessionRecord,
    user_id: Seq<char>,
    course_id: Seq<char>,
    section_id: Seq<char>,
    content_id: Seq<char>,
    hardest_questions: bool,
    modules: Seq<ContentModule>,
    now: i64,
    min_dur: i64,
    max_dur: i64,
) -> bool {
    &&& valid_session_id(r.session_id@)
    &&& r.user_id@ == user_id
    &&& r.course_id@ == course_id
    &&& r.section_id@ == section_id
    &&& r.content_id@ == content_id
    &&& r.has_hardest_question_content == hardest_questions
    &&& r.modules@.len() == modules.len()
    &&& r.modules_studied as int == modules.len()
    &&& r.modules_correct as int == modules.len() - count_non_question(modules)
    &&& r.modules_tested == r.modules_correct
    &&& r.modules_incorrect == 0
    &&& r.modules_gave_up == 0
    &&& r.session_score == 1
    &&& r.average_score == 1
    &&& r.completed
    &&& r.time_finished_ts == now
    &&& min_dur <= now - r.time_started_ts <= max_dur
    &&& r.time_started@ == rfc3339_secs_of(r.time_started_ts)
    &&& r.time_finished@ == rfc3339_secs_of(now)
    &&& forall|i: int|
        0 <= i < modules.len() ==> module_record_matches(
            #[trigger] r.modules@[i],
            r.session_id@,
            course_id,
            section_id,
            content_id,
            modules[i],
            i,
        )
    &&& r.modules@.len() > 0 ==> r.modules@[0].time_started_ts == r.time_started_ts
    &&& r.modules@.len() > 0 ==> r.modules@[r.modules@.len() - 1].time_finished_ts == now
    &&& forall|i: int|
        0 <= i < modules.len() - 1 ==> #[trigger] r.modules@[i].time_finished_ts == r.modules@[i
            + 1].time_started_ts
}

/// Extending a module list by one keeps the non-question count in
/// step.
proof fn lemma_count_prefix_step(ms: Seq<ContentModule>, i: int)
    requires
        0 <= i < ms.len(),
    ensures
        count_non_question(ms.subrange(0, i + 1)) == count_non_question(ms.subrange(0, i))
            + if is_non_question_type(ms[i].module_type@) {
            1int
        } else {
            0int
        },
{
    let pre = ms.subrange(0, i + 1);
    assert(pre.drop_last() =~= ms.subrange(0, i));
    assert(pre.last() == ms[i]);
}

/// The non-question count never exceeds the module count.
proof fn lemma_count_le_len(ms: Seq<ContentModule>)
    ensures
        0 <= count_non_question(ms) <= ms.len(),
    decreases ms.len(),
{
    if ms.len() > 0 {
        lemma_count_le_len(ms.drop_last());
    }
}

/// The synthesizer's counter discipline, for any module list: correct
/// and tested both count exactly the question modules, every
/// non-question record carries neither a score nor an answer field,
/// and every toggles record answers with the empty ordered sequence.
pub proof fn lemma_session_counters(
    r: SessionRecord,
    user_id: Seq<char>,
    course_id: Seq<char>,
    section_id: Seq<char>,
    content_id: Seq<char>,
    hardest_questions: bool,
    modules: Seq<ContentModule>,
    now: i64,
    min_dur: i64,
    max_dur: i64,
)
    requires
        synthesized_from(
            r,
            user_id,
            course_id,
            section_id,
            content_id,
            hardest_questions,
            modules,
            now,
            min_dur,
            max_dur,
        ),
    ensures
        r.modules_correct as int == modules.len() - count_non_question(modules),
        r.modules_tested == r.modules_correct,
        forall|i: int|
            0 <= i < modules.len() && is_non_question_type(modules[i].module_type@) ==> (
            #[trigger] r.modules@[i]).module_score is None && r.modules@[i].user_answer
                == AnswerField::Absent && r.modules@[i].score == 0,
        forall|i: int|
            0 <= i < modules.len() && is_toggles_type(modules[i].module_type@) ==> (
            #[trigger] r.modules@[i]).user_answer == AnswerField::EmptyList,
{
    assert forall|i: int|
        0 <= i < modules.len() && is_toggles_type(modules[i].module_type@) implies (
    #[trigger] r.modules@[i]).user_answer == AnswerField::EmptyList by {
        assert(module_record_matches(
            r.modules@[i],
            r.session_id@,
            course_id,
            section_id,
            content_id,
            modules[i],
            i,
        ));
        reveal_strlit("toggles");
        reveal_strlit("concept");
        reveal_strlit("video");
        reveal_strlit("image");
        reveal_strlit("delve");
        assert("toggles"@[0] != "concept"@[0] && "toggles"@[0] != "video"@[0] && "toggles"@[0]
            != "image"@[0] && "toggles"@[0] != "delve"@[0]);
        assert(!is_non_question_type(modules[i].module_type@));
    }
}

/// Re-running the synthesizer over the same module list yields a
/// structurally identical record whatever the random source and the
/// anchor did: only the session identifier and the timestamps may
/// differ.
pub proof fn lemma_synthesis_structurally_deterministic(
    r1: SessionRecord,
    r2: SessionRecord,
    user_id: Seq<char>,
    course_id: Seq<char>,
    section_id: Seq<char>,
    content_id: Seq<char>,
    hardest_questions: bool,
    modules: Seq<ContentModule>,
    now1: i64,
    now2: i64,
    min_dur: i64,
    max_dur: i64,
)
    requires
        synthesized_from(
            r1,
            user_id,
            course_id,
            section_id,
            content_id,
            hardest_questions,
            modules,
            now1,
            min_dur,
            max_dur,
        ),
        synthesized_from(
            r2,
            user_id,
            course_id,
            section_id,
            content_id,
            hardest_questions,
            modules,
            now2,
            min_dur,
            max_dur,
        ),
    ensures
        r1.modules_correct == r2.modules_correct,
        r1.modules_incorrect == r2.modules_incorrect,
        r1.modules_tested == r2.modules_tested,
        r1.modules_studied == r2.modules_studied,
        r1.modules_gave_up == r2.modules_gave_up,
        r1.session_score == r2.session_score,
        r1.average_score == r2.average_score,
        r1.completed == r2.completed,
        r1.has_hardest_question_content == r2.has_hardest_question_content,
        r1.user_id@ == r2.user_id@,
        r1.course_id@ == r2.course_id@,
        r1.section_id@ == r2.section_id@,
        r1.content_id@ == r2.content_id@,
        r1.modules@.len() == r2.modules@.len(),
        forall|i: int|
            0 <= i < modules.len() ==> {
                let m1 = #[trigger] r1.modules@[i];
                let m2 = r2.modules@[i];
                m1.module_id@ == m2.module_id@ && m1.module_type@ == m2.module_type@
                    && m1.module_order == m2.module_order && m1.gave_up == m2.gave_up
                    && m1.submitted == m2.submitted && m1.completed == m2.completed
                    && m1.testing_active == m2.testing_active && m1.score == m2.score
                    && m1.module_score == m2.module_score && m1.user_answer == m2.user_answer
            },
{
    assert forall|i: int| 0 <= i < modules.len() implies {
        let m1 = #[trigger] r1.modules@[i];
        let m2 = r2.modules@[i];
        m1.module_id@ == m2.module_id@ && m1.module_type@ == m2.module_type@ && m1.module_order
            == m2.module_order && m1.gave_up == m2.gave_up && m1.submitted == m2.submitted
            && m1.completed == m2.completed && m1.testing_active == m2.testing_active && m1.score
            == m2.score && m1.module_score == m2.module_score && m1.user_answer == m2.user_answer
    } by {
        assert(module_record_matches(
            r1.modules@[i],
            r1.session_id@,
            course_id,
            section_id,
            content_id,
            modules[i],
            i,
        ));
        assert(module_record_matches(
            r2.modules@[i],
            r2.session_id@,
            course_id,
            section_id,
            content_id,
            modules[i],
            i,
        ));
    }
}

/// Builds one fabricated session record over the given modules: a
/// fresh dash-grouped session identifier, a timeline drawn from the
/// duration window and anchored so the session ends at `now`, one
/// module record per content module in order, and counters in which
/// every question module counts as tested and correct while
/// non-question modules are only studied.
#[verifier::rlimit(60)]
pub fn synthesize_session(
    rng: &mut Lcg64,
    user_id: &str,
    course_id: &str,
    section_id: &str,
    content_id: &str,
    hardest_questions: bool,
    modules: &Vec<ContentModule>,
    now: i64,
    min_dur: i64,
    max_dur: i64,
) -> (r: SessionRecord)
    requires
        modules@.len() >= 1,
        0 <= min_dur <= max_dur <= now,
        max_dur < i64::MAX,
        now <= 4102444800,
    ensures
        synthesized_from(
            r,
            user_id@,
            course_id@,
            section_id@,
            content_id@,
            hardest_questions,
            modules@,
            now,
            min_dur,
            max_dur,
        ),
        final(rng).state == crate::rng::lcg_iter(old(rng).state, (16 + modules@.len()) as nat),
{
    let ghost s0 = rng.state;
    let session_id = generate_session_id(rng);
    let n = modules.len();
    let times = distribute_times(rng, now, min_dur, max_dur, n);
    proof {
        crate::rng::lemma_lcg_iter_add(s0, 16, n as nat);
    }
    let t0 = times[0];
    let time_started = match rfc3339_utc_secs(t0) {
        Some(s) => s,
        None => {
            proof {
                assert(false);
            }
            String::new()
        },
    };
    let time_finished = match rfc3339_utc_secs(now) {
        Some(s) => s,
        None => {
            proof {
                assert(false);
            }
            String::new()
        },
    };
    let mut recs: Vec<ModuleRecord> = Vec::new();
    let mut non_questions: usize = 0;
    let mut i: usize = 0;
    while i < n
        invariant
            0 <= i <= n,
            n == modules@.len(),
            times@.len() == n + 1,
            forall|k: int| 0 <= k < times@.len() ==> 0 <= #[trigger] times@[k] <= 4102444800,
            forall|k1: int, k2: int|
                #![trigger times@[k1], times@[k2]]
                0 <= k1 <= k2 < times@.len() ==> times@[k1] <= times@[k2],
            recs@.len() == i,
            non_questions <= i,
            non_questions == count_non_question(modules@.subrange(0, i as int)),
            valid_session_id(session_id@),
            forall|j: int|
                0 <= j < i ==> module_record_matches(
                    #[trigger] recs@[j],
                    session_id@,
                    course_id@,
                    section_id@,
                    content_id@,
                    modules@[j],
                    j,
                ),
            forall|j: int| 0 <= j < i ==> #[trigger] recs@[j].time_started_ts == times@[j],
            forall|j: int| 0 <= j < i ==> #[trigger] recs@[j].time_finished_ts == times@[j + 1],
        decreases n - i,
    {
        let started_ts = times[i];
        let finished_ts = times[i + 1];
        let started_str = match rfc3339_utc_secs(started_ts) {
            Some(s) => s,
            None => {
                proof {
                    assert(false);
                }
                String::new()
            },
        };
        let finished_str = match rfc3339_utc_secs(finished_ts) {
            Some(s) => s,
            None => {
                proof {
                    assert(false);
                }
                String::new()
            },
        };
        let m = &modules[i];
        let non_question = module_is_non_question(m.module_type.as_str());
        let toggles = str_eq(m.module_type.as_str(), "toggles");
        let rec = ModuleRecord {
            session_id: session_id.clone(),
            module_order: i,
            module_id: m.id.clone(),
            module_type: m.module_type.clone(),
            time_started_ts: started_ts,
            time_finished_ts: finished_ts,
            time_started: started_str,
            time_finished: finished_str,
            gave_up: false,
            submitted: !non_question,
            completed: true,
            testing_active: !non_question,
            score: if non_question {
                0
            } else {
                1
            },
            module_score: if non_question {
                None
            } else {
                Some(1u64)
            },
            user_answer: if non_question {
                AnswerField::Absent
            } else if toggles {
                AnswerField::EmptyList
            } else {
                AnswerField::EmptyObject
            },
            course_id: course_id.to_owned(),
            section_id: section_id.to_owned(),
            content_id: content_id.to_owned(),
        };
        recs.push(rec);
        proof {
            lemma_count_prefix_step(modules@, i as int);
        }
        if non_question {
            non_questions += 1;
        }
        i += 1;
    }
    proof {
        assert(modules@.subrange(0, n as int) =~= modules@);
        lemma_count_le_len(modules@);
    }
    let correct: u64 = (n - non_questions) as u64;
    SessionRecord {
        session_id,
        user_id: user_id.to_owned(),
        course_id: course_id.to_owned(),
        section_id: section_id.to_owned(),
        content_id: content_id.to_owned(),
        time_started_ts: t0,
        time_finished_ts: now,
        time_started,
        time_finished,
        session_score: 1,
        completed: true,
        modules_correct: correct,
        modules_incorrect: 0,
        average_score: 1,
        modules_gave_up: 0,
        modules_studied: n as u64,
        modules_tested: correct,
        has_hardest_question_content: hardest_questions,
        modules: recs,
    }
}

} // verus!

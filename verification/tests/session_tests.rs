use seneca_client::rng::Lcg64;
use seneca_client::timeline::distribute_times;
use seneca_client::hexid::{generate_session_id, hex_string};
use seneca_client::session::{
    synthesize_session, AnswerField, ContentModule, ModuleRecord, SessionRecord,
};

fn module(id: &str, module_type: &str) -> ContentModule {
    ContentModule { id: String::from(id), module_type: String::from(module_type) }
}

fn five_modules_one_video() -> Vec<ContentModule> {
    vec![
        module("m0", "multiple-choice"),
        module("m1", "video"),
        module("m2", "toggles"),
        module("m3", "multiple-choice"),
        module("m4", "wordfill"),
    ]
}

fn synthesize(seed: u64, now: i64, min_dur: i64, max_dur: i64) -> SessionRecord {
    let mut rng = Lcg64::new(seed);
    let modules = five_modules_one_video();
    synthesize_session(
        &mut rng,
        "user-1",
        "course-1",
        "section-1",
        "content-1",
        false,
        &modules,
        now,
        min_dur,
        max_dur,
    )
}

#[test]
fn timeline_has_bounded_monotone_boundaries() {
    let mut rng = Lcg64::new(42);
    let now: i64 = 1_000_000;
    let times = distribute_times(&mut rng, now, 5, 25, 5);
    assert_eq!(times.len(), 6);
    for w in times.windows(2) {
        assert!(w[0] <= w[1]);
    }
    assert_eq!(times[5], now);
    let elapsed = now - times[0];
    assert!(5 <= elapsed && elapsed <= 25);
}

#[test]
fn timeline_single_module() {
    let mut rng = Lcg64::new(7);
    let times = distribute_times(&mut rng, 100, 0, 0, 1);
    assert_eq!(times.len(), 2);
    assert_eq!(times[0], 100);
    assert_eq!(times[1], 100);
}

#[test]
fn hex_string_is_hex() {
    let mut rng = Lcg64::new(3);
    let s = hex_string(&mut rng, 6);
    assert_eq!(s.len(), 12);
    assert!(s.chars().all(|c| c.is_ascii_hexdigit() && !c.is_ascii_uppercase()));
}

#[test]
fn session_id_shape() {
    let mut rng = Lcg64::new(9);
    let id = generate_session_id(&mut rng);
    assert_eq!(id.len(), 36);
    let bytes = id.as_bytes();
    for (i, b) in bytes.iter().enumerate() {
        if i == 8 || i == 13 || i == 18 || i == 23 {
            assert_eq!(*b, b'-');
        } else {
            assert!(b.is_ascii_hexdigit() && !b.is_ascii_uppercase());
        }
    }
}

#[test]
fn five_modules_one_video_counts() {
    let record = synthesize(11, 1_700_000_000, 5, 25);
    assert_eq!(record.modules.len(), 5);
    assert_eq!(record.modules_tested, 4);
    assert_eq!(record.modules_correct, 4);
    assert_eq!(record.modules_incorrect, 0);
    assert_eq!(record.modules_gave_up, 0);
    assert_eq!(record.modules_studied, 5);
    assert_eq!(record.session_score, 1);
    assert_eq!(record.average_score, 1);
    assert!(record.completed);
    let span = record.time_finished_ts - record.time_started_ts;
    assert!(5 <= span && span <= 25);
    assert_eq!(record.time_finished_ts, 1_700_000_000);
}

#[test]
fn non_question_module_lacks_score_and_answer() {
    let record = synthesize(12, 1_700_000_000, 5, 25);
    let video: &ModuleRecord = &record.modules[1];
    assert_eq!(video.module_type, "video");
    assert!(!video.submitted);
    assert!(!video.testing_active);
    assert_eq!(video.score, 0);
    assert!(video.module_score.is_none());
    assert_eq!(video.user_answer, AnswerField::Absent);
}

#[test]
fn toggles_module_answers_with_empty_list() {
    let record = synthesize(13, 1_700_000_000, 5, 25);
    let toggles: &ModuleRecord = &record.modules[2];
    assert_eq!(toggles.module_type, "toggles");
    assert!(toggles.submitted);
    assert!(toggles.testing_active);
    assert_eq!(toggles.score, 1);
    assert_eq!(toggles.module_score, Some(1));
    assert_eq!(toggles.user_answer, AnswerField::EmptyList);
}

#[test]
fn question_module_answers_with_empty_object() {
    let record = synthesize(14, 1_700_000_000, 5, 25);
    let question: &ModuleRecord = &record.modules[0];
    assert!(question.submitted);
    assert_eq!(question.module_score, Some(1));
    assert_eq!(question.user_answer, AnswerField::EmptyObject);
    assert_eq!(question.module_order, 0);
    assert_eq!(question.module_id, "m0");
    assert_eq!(question.course_id, "course-1");
    assert_eq!(question.section_id, "section-1");
    assert_eq!(question.content_id, "content-1");
    assert!(!question.gave_up);
    assert!(question.completed);
}

#[test]
fn module_timeline_chains_through_records() {
    let record = synthesize(15, 1_700_000_000, 5, 25);
    assert_eq!(record.modules[0].time_started_ts, record.time_started_ts);
    for i in 0..4 {
        assert_eq!(record.modules[i].time_finished_ts, record.modules[i + 1].time_started_ts);
    }
    assert_eq!(record.modules[4].time_finished_ts, record.time_finished_ts);
}

#[test]
fn timestamps_render_as_rfc3339() {
    let record = synthesize(16, 20, 5, 15);
    let expect = |ts: i64| {
        chrono::DateTime::<chrono::Utc>::from_timestamp(ts, 0)
            .unwrap()
            .to_rfc3339_opts(chrono::SecondsFormat::Secs, false)
    };
    assert_eq!(record.time_finished, "1970-01-01T00:00:20+00:00");
    assert_eq!(record.time_started, expect(record.time_started_ts));
    assert_eq!(record.modules[3].time_started, expect(record.modules[3].time_started_ts));
}

#[test]
fn rerun_with_same_seed_is_identical() {
    let a = synthesize(21, 1_700_000_000, 5, 25);
    let b = synthesize(21, 1_700_000_000, 5, 25);
    assert_eq!(a.session_id, b.session_id);
    assert_eq!(a.time_started_ts, b.time_started_ts);
    assert_eq!(a.modules.len(), b.modules.len());
    for (x, y) in a.modules.iter().zip(b.modules.iter()) {
        assert_eq!(x.module_id, y.module_id);
        assert_eq!(x.time_started, y.time_started);
        assert_eq!(x.user_answer, y.user_answer);
        assert_eq!(x.module_score, y.module_score);
    }
}

#[test]
fn rerun_with_other_seed_is_structurally_identical() {
    let a = synthesize(31, 1_700_000_000, 5, 25);
    let b = synthesize(32, 1_600_000_000, 5, 25);
    assert_ne!(a.session_id, b.session_id);
    assert_eq!(a.modules_tested, b.modules_tested);
    assert_eq!(a.modules_correct, b.modules_correct);
    for (x, y) in a.modules.iter().zip(b.modules.iter()) {
        assert_eq!(x.module_id, y.module_id);
        assert_eq!(x.submitted, y.submitted);
        assert_eq!(x.score, y.score);
        assert_eq!(x.module_score, y.module_score);
        assert_eq!(x.user_answer, y.user_answer);
    }
}

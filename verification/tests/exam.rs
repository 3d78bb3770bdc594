use contract_state::exam_records::{
    decode_record, encode_record, ExamResult, Grade, StudentExaminationRecord,
};
use contract_state::world_state::WorldState;
use contract_state::StateError;

fn s(text: &str) -> String {
    text.to_owned()
}

fn result(grade: Grade, score: u32) -> ExamResult {
    ExamResult { grade, score }
}

fn store_with_dana() -> WorldState {
    let mut store = WorldState::new();
    StudentExaminationRecord::add_new_entry(
        &mut store,
        &s("Dana"),
        &s("Hall"),
        &result(Grade::A, 96),
        &result(Grade::B, 81),
        &result(Grade::C, 70),
        &result(Grade::D, 62),
    );
    store
}

#[test]
fn added_record_is_shown_back() {
    let store = store_with_dana();
    let record = StudentExaminationRecord::show_results(&store, &s("Dana"), &s("Hall")).unwrap();
    assert_eq!(record.first_name, "Dana");
    assert_eq!(record.last_name, "Hall");
    assert_eq!(record.get_mathematics(), result(Grade::A, 96));
    assert_eq!(record.get_science(), result(Grade::B, 81));
    assert_eq!(record.get_languages(), result(Grade::C, 70));
    assert_eq!(record.get_general_studies(), result(Grade::D, 62));
}

#[test]
fn unknown_student_reports_not_found() {
    let store = store_with_dana();
    let r = StudentExaminationRecord::show_results(&store, &s("Evan"), &s("Hall"));
    assert_eq!(r, Err(StateError::NotFound));
}

#[test]
fn update_replaces_only_the_named_subject() {
    let mut store = store_with_dana();
    let r = StudentExaminationRecord::update_result(
        &mut store,
        &s("Dana"),
        &s("Hall"),
        &s("science"),
        &result(Grade::A, 99),
    );
    assert_eq!(r, Ok(()));
    let record = StudentExaminationRecord::show_results(&store, &s("Dana"), &s("Hall")).unwrap();
    assert_eq!(record.get_science(), result(Grade::A, 99));
    assert_eq!(record.get_mathematics(), result(Grade::A, 96));
    assert_eq!(record.get_languages(), result(Grade::C, 70));
    assert_eq!(record.get_general_studies(), result(Grade::D, 62));
}

#[test]
fn update_of_every_subject_lands_in_its_field() {
    let mut store = store_with_dana();
    let subjects = ["mathematics", "science", "languages", "general_studies"];
    for (i, subject) in subjects.iter().enumerate() {
        let r = StudentExaminationRecord::update_result(
            &mut store,
            &s("Dana"),
            &s("Hall"),
            &s(subject),
            &result(Grade::F, i as u32),
        );
        assert_eq!(r, Ok(()));
    }
    let record = StudentExaminationRecord::show_results(&store, &s("Dana"), &s("Hall")).unwrap();
    assert_eq!(record.get_mathematics(), result(Grade::F, 0));
    assert_eq!(record.get_science(), result(Grade::F, 1));
    assert_eq!(record.get_languages(), result(Grade::F, 2));
    assert_eq!(record.get_general_studies(), result(Grade::F, 3));
}

#[test]
fn unknown_subject_is_refused_and_changes_nothing() {
    let mut store = store_with_dana();
    let r = StudentExaminationRecord::update_result(
        &mut store,
        &s("Dana"),
        &s("Hall"),
        &s("alchemy"),
        &result(Grade::A, 100),
    );
    assert_eq!(r, Err(StateError::UnknownOperation));
    let record = StudentExaminationRecord::show_results(&store, &s("Dana"), &s("Hall")).unwrap();
    assert_eq!(record.get_mathematics(), result(Grade::A, 96));
    assert_eq!(record.get_science(), result(Grade::B, 81));
}

#[test]
fn update_for_unknown_student_reports_not_found() {
    let mut store = store_with_dana();
    let r = StudentExaminationRecord::update_result(
        &mut store,
        &s("Evan"),
        &s("Hall"),
        &s("science"),
        &result(Grade::A, 99),
    );
    assert_eq!(r, Err(StateError::NotFound));
}

#[test]
fn writers_and_getters_work_in_memory() {
    let store = store_with_dana();
    let mut record =
        StudentExaminationRecord::show_results(&store, &s("Dana"), &s("Hall")).unwrap();
    record.write_mathematics(result(Grade::E, 50));
    record.write_science(result(Grade::E, 51));
    record.write_languages(result(Grade::E, 52));
    record.write_general_studies(result(Grade::E, 53));
    assert_eq!(record.get_mathematics(), result(Grade::E, 50));
    assert_eq!(record.get_science(), result(Grade::E, 51));
    assert_eq!(record.get_languages(), result(Grade::E, 52));
    assert_eq!(record.get_general_studies(), result(Grade::E, 53));
}

#[test]
fn record_encoding_round_trips() {
    let store = store_with_dana();
    let record = StudentExaminationRecord::show_results(&store, &s("Dana"), &s("Hall")).unwrap();
    let bytes = encode_record(&record);
    assert_eq!(decode_record(bytes.as_slice()), Some(record));
}

#[test]
fn record_decoding_rejects_an_unknown_grade_byte() {
    let store = store_with_dana();
    let record = StudentExaminationRecord::show_results(&store, &s("Dana"), &s("Hall")).unwrap();
    let mut bytes = encode_record(&record);
    // The first subject's grade byte sits right after the two name fields.
    let grade_pos = (8 + "Dana".len()) + (8 + "Hall".len());
    bytes[grade_pos] = 200;
    assert_eq!(decode_record(bytes.as_slice()), None);
}

#[test]
fn record_decoding_rejects_truncation_and_trailing_bytes() {
    let store = store_with_dana();
    let record = StudentExaminationRecord::show_results(&store, &s("Dana"), &s("Hall")).unwrap();
    let mut bytes = encode_record(&record);
    assert_eq!(decode_record(&bytes[..bytes.len() - 1]), None);
    bytes.push(0);
    assert_eq!(decode_record(bytes.as_slice()), None);
}

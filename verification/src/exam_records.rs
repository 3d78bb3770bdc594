//! Student examination records: a second record type kept in the world state
//! under the same accessor discipline as the bank account.
//!
//! A record is stored under the UTF-8 bytes of the student's first and last
//! name concatenated.  Its schema extends the one of [`crate::codec`]: the two
//! text fields, then the four subject results, each a grade byte followed by
//! the score as a little-endian `u32`.

use vstd::prelude::*;
use vstd::bytes::{
    lemma_auto_spec_u32_to_from_le_bytes, spec_u32_from_le_bytes, spec_u32_to_le_bytes,
    u32_from_le_bytes, u32_to_le_bytes,
};
use vstd::slice::{slice_index_get, slice_subrange, slice_to_vec};
use vstd::utf8::encode_utf8;

use crate::codec::{
    lemma_take_field_concat, push_string_field, read_string_field, str_field, take_field,
};
use crate::world_state::WorldState;
use crate::StateError;

verus! {

/// A letter grade.
#[derive(Clone, Copy, Debug, PartialEq, Eq, Structural)]
pub enum Grade {
    A,
    B,
    C,
    D,
    E,
    F,
}

/// The outcome of one examination: a grade and a numeric score.
#[derive(Clone, Copy, Debug, PartialEq, Eq, Structural)]
pub struct ExamResult {
    pub grade: Grade,
    pub score: u32,
}

/// The byte a grade is encoded as.
pub open spec fn grade_byte(grade: Grade) -> u8 {
    match grade {
        Grade::A => 0u8,
        Grade::B => 1u8,
        Grade::C => 2u8,
        Grade::D => 3u8,
        Grade::E => 4u8,
        Grade::F => 5u8,
    }
}

/// The grade a byte encodes, if any.
pub open spec fn byte_to_grade(b: u8) -> Option<Grade> {
    if b == 0 {
        Some(Grade::A)
    } else if b == 1 {
        Some(Grade::B)
    } else if b == 2 {
        Some(Grade::C)
    } else if b == 3 {
        Some(Grade::D)
    } else if b == 4 {
        Some(Grade::E)
    } else if b == 5 {
        Some(Grade::F)
    } else {
        None
    }
}

/// The encoding of one subject result: the grade byte, then the score as a
/// little-endian `u32`.
pub open spec fn result_field(r: ExamResult) -> Seq<u8> {
    seq![grade_byte(r.grade)] + spec_u32_to_le_bytes(r.score)
}

/// Parses one subject result off the front of `b`.
pub open spec fn take_result(b: Seq<u8>) -> Option<(ExamResult, Seq<u8>)> {
    if b.len() < 5 {
        None
    } else {
        match byte_to_grade(b[0]) {
            Some(grade) => Some(
                (ExamResult { grade, score: spec_u32_from_le_bytes(b.subrange(1, 5)) }, b.skip(5)),
            ),
            None => None,
        }
    }
}

proof fn lemma_take_result_concat(r: ExamResult, rest: Seq<u8>)
    ensures
        take_result(result_field(r) + rest) == Some((r, rest)),
{
    let b = result_field(r) + rest;
    lemma_auto_spec_u32_to_from_le_bytes();
    assert(b[0] == grade_byte(r.grade));
    assert(byte_to_grade(grade_byte(r.grade)) == Some(r.grade));
    assert(b.subrange(1, 5) =~= spec_u32_to_le_bytes(r.score));
    assert(b.skip(5) =~= rest);
}

/// Writes a grade as its schema byte.
fn grade_to_byte_exec(grade: Grade) -> (r: u8)
    ensures
        r == grade_byte(grade),
{
    match grade {
        Grade::A => 0u8,
        Grade::B => 1u8,
        Grade::C => 2u8,
        Grade::D => 3u8,
        Grade::E => 4u8,
        Grade::F => 5u8,
    }
}

fn parse_grade(b: u8) -> (r: Option<Grade>)
    ensures
        r == byte_to_grade(b),
{
    if b == 0 {
        Some(Grade::A)
    } else if b == 1 {
        Some(Grade::B)
    } else if b == 2 {
        Some(Grade::C)
    } else if b == 3 {
        Some(Grade::D)
    } else if b == 4 {
        Some(Grade::E)
    } else if b == 5 {
        Some(Grade::F)
    } else {
        None
    }
}

/// Appends the field encoding of one subject result to `out`.
fn push_result_field(out: &mut Vec<u8>, r: &ExamResult)
    ensures
        final(out)@ == old(out)@ + result_field(*r),
{
    out.push(grade_to_byte_exec(r.grade));
    let mut score_bytes = u32_to_le_bytes(r.score);
    out.append(&mut score_bytes);
    proof {
        assert(final(out)@ =~= old(out)@ + result_field(*r));
    }
}

/// Reads one subject result of `bytes` starting at `pos`.
fn read_result_field(bytes: &[u8], pos: usize) -> (r: Option<(ExamResult, usize)>)
    requires
        pos <= bytes@.len(),
    ensures
        match r {
            Some(p) => {
                &&& take_result(bytes@.skip(pos as int)) == Some((p.0, bytes@.skip(p.1 as int)))
                &&& pos + 5 == p.1 <= bytes@.len()
            },
            None => take_result(bytes@.skip(pos as int)) is None,
        },
{
    let total: usize = bytes.len();
    if total - pos < 5 {
        return None;
    }
    let grade_raw = *slice_index_get(bytes, pos);
    let score_slice = slice_subrange(bytes, pos + 1, pos + 5);
    proof {
        assert(score_slice@ =~= bytes@.skip(pos as int).subrange(1, 5));
        assert(bytes@.skip(pos as int)[0] == grade_raw);
    }
    match parse_grade(grade_raw) {
        Some(grade) => {
            let score = u32_from_le_bytes(score_slice);
            proof {
                assert(bytes@.skip(pos as int).skip(5) =~= bytes@.skip(pos as int + 5));
            }
            Some((ExamResult { grade, score }, pos + 5))
        },
        None => None,
    }
}

/// The abstract value of a [`StudentExaminationRecord`].
pub struct RecordView {
    pub first_name: Seq<char>,
    pub last_name: Seq<char>,
    pub mathematics: ExamResult,
    pub science: ExamResult,
    pub languages: ExamResult,
    pub general_studies: ExamResult,
}

impl RecordView {
    /// Representable on a real machine: each name's UTF-8 encoding fits the
    /// 64-bit length prefix of the schema.
    pub open spec fn wf(self) -> bool {
        &&& encode_utf8(self.first_name).len() <= u64::MAX
        &&& encode_utf8(self.last_name).len() <= u64::MAX
    }

    /// The same record with one subject's result replaced.
    pub open spec fn with_mathematics(self, r: ExamResult) -> RecordView {
        RecordView { mathematics: r, ..self }
    }

    pub open spec fn with_science(self, r: ExamResult) -> RecordView {
        RecordView { science: r, ..self }
    }

    pub open spec fn with_languages(self, r: ExamResult) -> RecordView {
        RecordView { languages: r, ..self }
    }

    pub open spec fn with_general_studies(self, r: ExamResult) -> RecordView {
        RecordView { general_studies: r, ..self }
    }
}

/// One student's examination record across the four subjects.
#[derive(Debug, PartialEq)]
pub struct StudentExaminationRecord {
    pub first_name: String,
    pub last_name: String,
    mathematics: ExamResult,
    science: ExamResult,
    languages: ExamResult,
    general_studies: ExamResult,
}

impl View for StudentExaminationRecord {
    type V = RecordView;

    closed spec fn view(&self) -> RecordView {
        RecordView {
            first_name: self.first_name@,
            last_name: self.last_name@,
            mathematics: self.mathematics,
            science: self.science,
            languages: self.languages,
            general_studies: self.general_studies,
        }
    }
}

/// The byte encoding of a record under the fixed schema.
pub open spec fn record_encode_spec(v: RecordView) -> Seq<u8> {
    str_field(v.first_name) + str_field(v.last_name) + result_field(v.mathematics) + result_field(
        v.science,
    ) + result_field(v.languages) + result_field(v.general_studies)
}

/// The record held by a byte sequence, or `None` when the bytes do not match
/// the schema exactly.
pub open spec fn record_decode_spec(b: Seq<u8>) -> Option<RecordView> {
    match take_field(b) {
        Some(first) => match take_field(first.1) {
            Some(last) => match take_result(last.1) {
                Some(mathematics) => match take_result(mathematics.1) {
                    Some(science) => match take_result(science.1) {
                        Some(languages) => match take_result(languages.1) {
                            Some(general_studies) => if general_studies.1.len() == 0 {
                                Some(
                                    RecordView {
                                        first_name: first.0,
                                        last_name: last.0,
                                        mathematics: mathematics.0,
                                        science: science.0,
                                        languages: languages.0,
                                        general_studies: general_studies.0,
                                    },
                                )
                            } else {
                                None
                            },
                            None => None,
                        },
                        None => None,
                    },
                    None => None,
                },
                None => None,
            },
            None => None,
        },
        None => None,
    }
}

/// Round trip: decoding the encoding of any representable record yields that
/// record again.
#[verifier::rlimit(60)]
#[verifier::spinoff_prover]
pub proof fn lemma_record_codec_round_trip(v: RecordView)
    requires
        v.wf(),
    ensures
        record_decode_spec(record_encode_spec(v)) == Some(v),
{
    let b = record_encode_spec(v);
    let tail1 = str_field(v.last_name) + result_field(v.mathematics) + result_field(v.science)
        + result_field(v.languages) + result_field(v.general_studies);
    let tail2 = result_field(v.mathematics) + result_field(v.science) + result_field(v.languages)
        + result_field(v.general_studies);
    let tail3 = result_field(v.science) + result_field(v.languages) + result_field(
        v.general_studies,
    );
    let tail4 = result_field(v.languages) + result_field(v.general_studies);
    let tail5 = result_field(v.general_studies);
    assert(b =~= str_field(v.first_name) + tail1);
    lemma_take_field_concat(v.first_name, tail1);
    assert(take_field(b) == Some((v.first_name, tail1)));
    assert(tail1 =~= str_field(v.last_name) + tail2);
    lemma_take_field_concat(v.last_name, tail2);
    assert(take_field(tail1) == Some((v.last_name, tail2)));
    assert(tail2 =~= result_field(v.mathematics) + tail3);
    lemma_take_result_concat(v.mathematics, tail3);
    assert(take_result(tail2) == Some((v.mathematics, tail3)));
    assert(tail3 =~= result_field(v.science) + tail4);
    lemma_take_result_concat(v.science, tail4);
    assert(take_result(tail3) == Some((v.science, tail4)));
    assert(tail4 =~= result_field(v.languages) + tail5);
    lemma_take_result_concat(v.languages, tail5);
    assert(take_result(tail4) == Some((v.languages, tail5)));
    assert(tail5 =~= result_field(v.general_studies) + Seq::<u8>::empty());
    lemma_take_result_concat(v.general_studies, Seq::<u8>::empty());
    assert(take_result(tail5) == Some((v.general_studies, Seq::<u8>::empty())));
}

/// Encodes a record under the fixed schema.
pub fn encode_record(record: &StudentExaminationRecord) -> (out: Vec<u8>)
    ensures
        out@ == record_encode_spec(record@),
        record@.wf(),
{
    let mut out: Vec<u8> = Vec::new();
    push_string_field(&mut out, record.first_name.as_str());
    push_string_field(&mut out, record.last_name.as_str());
    push_result_field(&mut out, &record.mathematics);
    push_result_field(&mut out, &record.science);
    push_result_field(&mut out, &record.languages);
    push_result_field(&mut out, &record.general_studies);
    proof {
        assert(out@ =~= record_encode_spec(record@));
    }
    out
}

/// Decodes a record; reports `None` on any byte sequence that encodes no
/// record.
pub fn decode_record(bytes: &[u8]) -> (r: Option<StudentExaminationRecord>)
    ensures
        match r {
            Some(record) => record_decode_spec(bytes@) == Some(record@),
            None => record_decode_spec(bytes@) is None,
        },
{
    proof {
        assert(bytes@.skip(0) =~= bytes@);
    }
    let first = match read_string_field(bytes, 0) {
        Some(p) => p,
        None => { return None; },
    };
    let last = match read_string_field(bytes, first.1) {
        Some(p) => p,
        None => { return None; },
    };
    let mathematics = match read_result_field(bytes, last.1) {
        Some(p) => p,
        None => { return None; },
    };
    let science = match read_result_field(bytes, mathematics.1) {
        Some(p) => p,
        None => { return None; },
    };
    let languages = match read_result_field(bytes, science.1) {
        Some(p) => p,
        None => { return None; },
    };
    let general_studies = match read_result_field(bytes, languages.1) {
        Some(p) => p,
        None => { return None; },
    };
    if bytes.len() != general_studies.1 {
        return None;
    }
    Some(
        StudentExaminationRecord {
            first_name: first.0,
            last_name: last.0,
            mathematics: mathematics.0,
            science: science.0,
            languages: languages.0,
            general_studies: general_studies.0,
        },
    )
}

/// The key a student's record is stored under: the UTF-8 bytes of the first
/// name followed by those of the last name.
pub open spec fn record_key(first_name: Seq<char>, last_name: Seq<char>) -> Seq<u8> {
    encode_utf8(first_name) + encode_utf8(last_name)
}

fn record_key_bytes(first_name: &String, last_name: &String) -> (r: Vec<u8>)
    ensures
        r@ == record_key(first_name@, last_name@),
{
    let mut key = slice_to_vec(first_name.as_str().as_bytes());
    key.extend_from_slice(last_name.as_str().as_bytes());
    proof {
        assert(key@ =~= record_key(first_name@, last_name@));
    }
    key
}

/// The record lookup a raw key denotes in a state.
pub open spec fn raw_record_lookup(state: Map<Seq<u8>, Seq<u8>>, key: Seq<u8>) -> Result<
    RecordView,
    StateError,
> {
    if !state.contains_key(key) {
        Err(StateError::NotFound)
    } else {
        match record_decode_spec(state[key]) {
            Some(v) => Ok(v),
            None => Err(StateError::CorruptState),
        }
    }
}

/// The record stored for a student, keyed by the concatenated names.
pub open spec fn record_lookup(
    state: Map<Seq<u8>, Seq<u8>>,
    first_name: Seq<char>,
    last_name: Seq<char>,
) -> Result<RecordView, StateError> {
    raw_record_lookup(state, record_key(first_name, last_name))
}

/// Loads and decodes the record stored under `key`.
pub fn get_student_examination_record(store: &WorldState, key: &[u8]) -> (r: Result<
    StudentExaminationRecord,
    StateError,
>)
    requires
        store.wf(),
    ensures
        match r {
            Ok(record) => raw_record_lookup(store@, key@) == Ok::<RecordView, StateError>(record@),
            Err(e) => raw_record_lookup(store@, key@) == Err::<RecordView, StateError>(e),
        },
{
    match store.get(key) {
        Some(bytes) => match decode_record(bytes.as_slice()) {
            Some(record) => Ok(record),
            None => Err(StateError::CorruptState),
        },
        None => Err(StateError::NotFound),
    }
}

/// Encodes `record` and writes it under `key`.
pub fn set_student_examination_record(
    store: &mut WorldState,
    key: &[u8],
    record: &StudentExaminationRecord,
)
    requires
        old(store).wf(),
    ensures
        final(store).wf(),
        final(store)@ == old(store)@.insert(key@, record_encode_spec(record@)),
        record@.wf(),
{
    let bytes = encode_record(record);
    store.set(key, bytes);
}

/// The record an add request constructs.
pub open spec fn new_record_view(
    first_name: Seq<char>,
    last_name: Seq<char>,
    mathematics: ExamResult,
    science: ExamResult,
    languages: ExamResult,
    general_studies: ExamResult,
) -> RecordView {
    RecordView { first_name, last_name, mathematics, science, languages, general_studies }
}

/// The record with the named subject's result replaced, or `None` when the
/// name selects no subject.
pub open spec fn record_with_subject(
    v: RecordView,
    subject_name: Seq<char>,
    result: ExamResult,
) -> Option<RecordView> {
    if subject_name == "mathematics"@ {
        Some(v.with_mathematics(result))
    } else if subject_name == "science"@ {
        Some(v.with_science(result))
    } else if subject_name == "languages"@ {
        Some(v.with_languages(result))
    } else if subject_name == "general_studies"@ {
        Some(v.with_general_studies(result))
    } else {
        None
    }
}

impl StudentExaminationRecord {
    /// Builds a student's record and stores it under the concatenated names.
    pub fn add_new_entry(
        store: &mut WorldState,
        first_name: &String,
        last_name: &String,
        mathematics: &ExamResult,
        science: &ExamResult,
        languages: &ExamResult,
        general_studies: &ExamResult,
    )
        requires
            old(store).wf(),
        ensures
            final(store).wf(),
            final(store)@ == old(store)@.insert(
                record_key(first_name@, last_name@),
                record_encode_spec(
                    new_record_view(
                        first_name@,
                        last_name@,
                        *mathematics,
                        *science,
                        *languages,
                        *general_studies,
                    ),
                ),
            ),
    {
        let record = StudentExaminationRecord {
            first_name: first_name.clone(),
            last_name: last_name.clone(),
            mathematics: *mathematics,
            science: *science,
            languages: *languages,
            general_studies: *general_studies,
        };
        let key = record_key_bytes(first_name, last_name);
        set_student_examination_record(store, key.as_slice(), &record);
    }

    /// Loads the record stored for a student, so the caller can present the
    /// results; reads the store once and never writes it.
    pub fn show_results(store: &WorldState, first_name: &String, last_name: &String) -> (r: Result<
        StudentExaminationRecord,
        StateError,
    >)
        requires
            store.wf(),
        ensures
            match r {
                Ok(record) => record_lookup(store@, first_name@, last_name@) == Ok::<
                    RecordView,
                    StateError,
                >(record@),
                Err(e) => record_lookup(store@, first_name@, last_name@) == Err::<
                    RecordView,
                    StateError,
                >(e),
            },
    {
        let key = record_key_bytes(first_name, last_name);
        get_student_examination_record(store, key.as_slice())
    }

    /// Replaces the named subject's result in a student's stored record; a
    /// name that selects no subject reports `UnknownOperation` and changes
    /// nothing.
    pub fn update_result(
        store: &mut WorldState,
        first_name: &String,
        last_name: &String,
        subject_name: &String,
        subject_result: &ExamResult,
    ) -> (r: Result<(), StateError>)
        requires
            old(store).wf(),
        ensures
            final(store).wf(),
            match record_lookup(old(store)@, first_name@, last_name@) {
                Ok(v) => match record_with_subject(v, subject_name@, *subject_result) {
                    Some(updated) => r == Ok::<(), StateError>(())
                        && final(store)@ == old(store)@.insert(
                        record_key(first_name@, last_name@),
                        record_encode_spec(updated),
                    ),
                    None => r == Err::<(), StateError>(StateError::UnknownOperation)
                        && final(store)@ == old(store)@,
                },
                Err(e) => r == Err::<(), StateError>(e) && final(store)@ == old(store)@,
            },
    {
        let key = record_key_bytes(first_name, last_name);
        let mut record = match get_student_examination_record(store, key.as_slice()) {
            Ok(record) => record,
            Err(e) => { return Err(e); },
        };
        if *subject_name == "mathematics".to_owned() {
            record.write_mathematics(*subject_result);
        } else if *subject_name == "science".to_owned() {
            record.write_science(*subject_result);
        } else if *subject_name == "languages".to_owned() {
            record.write_languages(*subject_result);
        } else if *subject_name == "general_studies".to_owned() {
            record.write_general_studies(*subject_result);
        } else {
            return Err(StateError::UnknownOperation);
        }
        set_student_examination_record(store, key.as_slice(), &record);
        Ok(())
    }

    /// Replaces the mathematics result.
    pub fn write_mathematics(&mut self, subject_result: ExamResult)
        ensures
            final(self)@ == old(self)@.with_mathematics(subject_result),
    {
        self.mathematics = subject_result;
    }

    /// Replaces the science result.
    pub fn write_science(&mut self, subject_result: ExamResult)
        ensures
            final(self)@ == old(self)@.with_science(subject_result),
    {
        self.science = subject_result;
    }

    /// Replaces the languages result.
    pub fn write_languages(&mut self, subject_result: ExamResult)
        ensures
            final(self)@ == old(self)@.with_languages(subject_result),
    {
        self.languages = subject_result;
    }

    /// Replaces the general-studies result.
    pub fn write_general_studies(&mut self, subject_result: ExamResult)
        ensures
            final(self)@ == old(self)@.with_general_studies(subject_result),
    {
        self.general_studies = subject_result;
    }

    /// The mathematics result.
    pub fn get_mathematics(&self) -> (r: ExamResult)
        ensures
            r == self@.mathematics,
    {
        self.mathematics
    }

    /// The science result.
    pub fn get_science(&self) -> (r: ExamResult)
        ensures
            r == self@.science,
    {
        self.science
    }

    /// The languages result.
    pub fn get_languages(&self) -> (r: ExamResult)
        ensures
            r == self@.languages,
    {
        self.languages
    }

    /// The general-studies result.
    pub fn get_general_studies(&self) -> (r: ExamResult)
        ensures
            r == self@.general_studies,
    {
        self.general_studies
    }
}

} // verus!

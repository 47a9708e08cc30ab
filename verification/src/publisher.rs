//! The feed publisher's records.
//!
//! A course is published exactly when a record exists for it. The publisher
//! decides from a course's fetched payload whether its artifact has to be
//! written, and commits a record only for content whose artifact is known
//! to be durable. The caller fetches payloads and writes artifacts.

use crate::error::Error;
use crate::fingerprint::{fingerprint, fingerprint_of};
use crate::text::{decimal_digits, push_decimal, render_decimal};
use crate::time::Timestamp;
use vstd::prelude::*;
use vstd::string::*;

verus! {

/// The record of one published course.
#[derive(Debug, PartialEq, Eq)]
pub struct PublishRecord {
    pub course_id: u64,
    pub location: String,
    pub published_at: Timestamp,
    pub fingerprint: u64,
}

/// What a record is, as mathematics.
pub struct RecordView {
    pub course_id: u64,
    pub location: Seq<char>,
    pub published_at: Timestamp,
    pub fingerprint: u64,
}

impl View for PublishRecord {
    type V = RecordView;

    open spec fn view(&self) -> RecordView {
        RecordView {
            course_id: self.course_id,
            location: self.location@,
            published_at: self.published_at,
            fingerprint: self.fingerprint,
        }
    }
}

impl Clone for PublishRecord {
    fn clone(&self) -> (r: Self)
        ensures
            r@ == self@,
    {
        PublishRecord {
            course_id: self.course_id,
            location: self.location.clone(),
            published_at: self.published_at,
            fingerprint: self.fingerprint,
        }
    }
}

/// The views of a sequence of records, in the same order.
pub open spec fn record_views(records: Seq<PublishRecord>) -> Seq<RecordView> {
    records.map_values(|r: PublishRecord| r@)
}

/// No course has two records.
pub open spec fn distinct_records(records: Seq<RecordView>) -> bool {
    forall|i: int, j: int|
        0 <= i < j < records.len() ==> records[i].course_id != records[j].course_id
}

/// Every record names the artifact that belongs to its course.
pub open spec fn well_placed(records: Seq<RecordView>) -> bool {
    forall|i: int|
        0 <= i < records.len() ==> (#[trigger] records[i]).location == artifact_name(
            records[i].course_id,
        )
}

/// Whether a course has a record.
pub open spec fn is_published(records: Seq<RecordView>, course_id: u64) -> bool {
    exists|i: int| 0 <= i < records.len() && records[i].course_id == course_id
}

/// What every artifact's name starts with.
pub open spec fn artifact_prefix() -> Seq<char> {
    "course-"@
}

/// What every artifact's name ends with.
pub open spec fn artifact_extension() -> Seq<char> {
    ".ics"@
}

/// The name of a course's artifact: fixed by the course's identifier alone.
pub open spec fn artifact_name(course_id: u64) -> Seq<char> {
    artifact_prefix() + decimal_digits(course_id as nat) + artifact_extension()
}

/// Builds the name of a course's artifact.
pub fn artifact_location(course_id: u64) -> (name: String)
    ensures
        name@ == artifact_name(course_id),
{
    let mut name = "course-".to_owned();
    push_decimal(&mut name, course_id);
    name.append(".ics");
    name
}

/// The index of the first record of a course, or the number of records
/// where the course has none.
pub open spec fn position(records: Seq<RecordView>, course_id: u64) -> int
    decreases records.len(),
{
    if records.len() == 0 || records.first().course_id == course_id {
        0
    } else {
        1 + position(records.drop_first(), course_id)
    }
}

/// `position` is in range, points at a record of the course when below the
/// length, and passes over no record of the course.
pub proof fn lemma_position(records: Seq<RecordView>, course_id: u64)
    ensures
        0 <= position(records, course_id) <= records.len(),
        position(records, course_id) < records.len() ==> records[position(
            records,
            course_id,
        )].course_id == course_id,
        forall|k: int| 0 <= k < position(records, course_id) ==> records[k].course_id != course_id,
        position(records, course_id) < records.len() <==> is_published(records, course_id),
    decreases records.len(),
{
    if records.len() > 0 && records.first().course_id != course_id {
        let rest = records.drop_first();
        lemma_position(rest, course_id);
        let p = position(rest, course_id);
        assert forall|k: int| 0 <= k < 1 + p implies records[k].course_id != course_id by {
            if k > 0 {
                assert(rest[k - 1] == records[k]);
            }
        }
    }
}

/// An index that points at a record of the course, or is the length, and
/// that passes over no record of the course, is the position.
pub proof fn lemma_position_is(records: Seq<RecordView>, course_id: u64, i: int)
    requires
        0 <= i <= records.len(),
        i < records.len() ==> records[i].course_id == course_id,
        forall|k: int| 0 <= k < i ==> records[k].course_id != course_id,
    ensures
        position(records, course_id) == i,
{
    lemma_position(records, course_id);
}

/// Finds the record of a course.
pub fn find_record(records: &Vec<PublishRecord>, course_id: u64) -> (i: usize)
    ensures
        i == position(record_views(records@), course_id),
        i <= records.len(),
{
    let mut i: usize = 0;
    while i < records.len() && records[i].course_id != course_id
        invariant
            i <= records.len(),
            forall|k: int| 0 <= k < i ==> record_views(records@)[k].course_id != course_id,
        decreases records.len() - i,
    {
        i += 1;
    }
    proof {
        lemma_position_is(record_views(records@), course_id, i as int);
    }
    i
}

/// Decides `distinct_records`.
pub fn has_distinct_records(records: &Vec<PublishRecord>) -> (r: bool)
    ensures
        r == distinct_records(record_views(records@)),
{
    let ghost views = record_views(records@);
    let mut j: usize = 0;
    while j < records.len()
        invariant
            j <= records.len(),
            views == record_views(records@),
            forall|a: int, b: int| 0 <= a < b < j ==> views[a].course_id != views[b].course_id,
        decreases records.len() - j,
    {
        let first = find_record(records, records[j].course_id);
        proof {
            lemma_position(views, views[j as int].course_id);
        }
        if first != j {
            return false;
        }
        j += 1;
    }
    true
}

/// Decides `well_placed`.
pub fn has_placed_records(records: &Vec<PublishRecord>) -> (r: bool)
    ensures
        r == well_placed(record_views(records@)),
{
    let mut i: usize = 0;
    while i < records.len()
        invariant
            i <= records.len(),
            forall|k: int|
                0 <= k < i ==> (#[trigger] record_views(records@)[k]).location == artifact_name(
                    record_views(records@)[k].course_id,
                ),
        decreases records.len() - i,
    {
        if records[i].location != artifact_location(records[i].course_id) {
            assert(record_views(records@)[i as int].location != artifact_name(
                record_views(records@)[i as int].course_id,
            ));
            return false;
        }
        i += 1;
    }
    true
}

/// The index of the first record whose course identifier is written as
/// the key, or the number of records where there is none.
pub open spec fn numeral_position(records: Seq<RecordView>, key: Seq<char>) -> int
    decreases records.len(),
{
    if records.len() == 0 || decimal_digits(records.first().course_id as nat) == key {
        0
    } else {
        1 + numeral_position(records.drop_first(), key)
    }
}

/// `numeral_position` is in range, points at a record whose identifier is
/// written as the key when below the length, and passes over no such
/// record.
pub proof fn lemma_numeral_position(records: Seq<RecordView>, key: Seq<char>)
    ensures
        0 <= numeral_position(records, key) <= records.len(),
        numeral_position(records, key) < records.len() ==> decimal_digits(
            records[numeral_position(records, key)].course_id as nat,
        ) == key,
        forall|k: int|
            0 <= k < numeral_position(records, key) ==> decimal_digits(
                (#[trigger] records[k]).course_id as nat,
            ) != key,
    decreases records.len(),
{
    if records.len() > 0 && decimal_digits(records.first().course_id as nat) != key {
        let rest = records.drop_first();
        lemma_numeral_position(rest, key);
        let p = numeral_position(rest, key);
        assert forall|k: int| 0 <= k < 1 + p implies decimal_digits(
            (#[trigger] records[k]).course_id as nat,
        ) != key by {
            if k > 0 {
                assert(rest[k - 1] == records[k]);
            }
        }
        if p < rest.len() {
            assert(rest[p] == records[p + 1]);
        }
    }
}

/// Finds the first record whose course identifier is written as the key.
pub fn find_by_numeral(records: &Vec<PublishRecord>, key: &String) -> (i: usize)
    ensures
        i == numeral_position(record_views(records@), key@),
        i <= records.len(),
{
    let mut i: usize = 0;
    while i < records.len() && render_decimal(records[i].course_id) != *key
        invariant
            i <= records.len(),
            forall|k: int|
                0 <= k < i ==> decimal_digits(
                    (#[trigger] record_views(records@)[k]).course_id as nat,
                ) != key@,
        decreases records.len() - i,
    {
        i += 1;
    }
    proof {
        let views = record_views(records@);
        lemma_numeral_position(views, key@);
        let p = numeral_position(views, key@);
        if p < i {
            assert(decimal_digits(views[p].course_id as nat) == key@);
        }
        if i < p {
            assert(decimal_digits(views[i as int].course_id as nat) == key@);
        }
    }
    i
}

/// What became of writing an artifact.
#[derive(Clone, Copy, Debug, PartialEq, Eq, Structural)]
pub enum ArtifactWrite {
    /// The artifact was written and the write is durable.
    Written,
    /// Nothing was written, because the content was said to be unchanged.
    Skipped,
    /// The write failed; what is on disk is not to be relied on.
    Failed,
}

/// Whether a publish brought new content.
#[derive(Clone, Copy, Debug, PartialEq, Eq, Structural)]
pub enum PublishStatus {
    /// The course had no record, or its content has changed.
    Published,
    /// The course was published before with the same content.
    Unchanged,
}

/// The outcome of one successful publish: the record as it now stands.
#[derive(Debug, PartialEq, Eq)]
pub struct Receipt {
    pub status: PublishStatus,
    pub record: PublishRecord,
}

/// What a receipt is, as mathematics.
pub struct ReceiptView {
    pub status: PublishStatus,
    pub record: RecordView,
}

impl View for Receipt {
    type V = ReceiptView;

    open spec fn view(&self) -> ReceiptView {
        ReceiptView { status: self.status, record: self.record@ }
    }
}

/// The view of a publish outcome.
pub open spec fn outcome_view(outcome: Result<Receipt, Error>) -> Result<ReceiptView, Error> {
    match outcome {
        Ok(receipt) => Ok(receipt@),
        Err(e) => Err(e),
    }
}

/// The views of a sequence of publish outcomes, in the same order.
pub open spec fn outcome_views(outcomes: Seq<Result<Receipt, Error>>) -> Seq<
    Result<ReceiptView, Error>,
> {
    outcomes.map_values(|o: Result<Receipt, Error>| outcome_view(o))
}

/// What the caller brings back for one course: the failure of the fetch, or
/// the payload together with what became of its artifact.
#[derive(Debug, PartialEq, Eq)]
pub enum Delivery {
    FetchFailed(Error),
    Fetched { payload: Vec<u8>, artifact: ArtifactWrite },
}

/// One course of a batch with what was brought back for it.
#[derive(Debug, PartialEq, Eq)]
pub struct Submission {
    pub course_id: u64,
    pub delivery: Delivery,
}

/// What a payload asks of the caller before it can be committed.
#[derive(Debug, PartialEq, Eq)]
pub struct PublishPlan {
    pub course_id: u64,
    pub location: String,
    pub fingerprint: u64,
    pub write_artifact: bool,
}

/// The course has a record, and that record carries this fingerprint.
pub open spec fn unchanged_content(records: Seq<RecordView>, course_id: u64, fp: u64) -> bool {
    let i = position(records, course_id);
    i < records.len() && records[i].fingerprint == fp
}

/// The artifact for this content is known to be on disk: it was just
/// written, or the write was skipped for content that is already recorded.
pub open spec fn durable(
    records: Seq<RecordView>,
    course_id: u64,
    fp: u64,
    artifact: ArtifactWrite,
) -> bool {
    artifact == ArtifactWrite::Written || (artifact == ArtifactWrite::Skipped && unchanged_content(
        records,
        course_id,
        fp,
    ))
}

/// The record that a publish at `now` leaves for this content.
pub open spec fn fresh_record(course_id: u64, fp: u64, now: Timestamp) -> RecordView {
    RecordView {
        course_id,
        location: artifact_name(course_id),
        published_at: now,
        fingerprint: fp,
    }
}

/// The records with `record` in the place of its course's record, or at the
/// end where the course had none.
pub open spec fn upsert(records: Seq<RecordView>, record: RecordView) -> Seq<RecordView> {
    let i = position(records, record.course_id);
    if i < records.len() {
        records.update(i, record)
    } else {
        records.push(record)
    }
}

/// The records after committing content with fingerprint `fp`.
pub open spec fn commit_records(
    records: Seq<RecordView>,
    course_id: u64,
    fp: u64,
    artifact: ArtifactWrite,
    now: Timestamp,
) -> Seq<RecordView> {
    if durable(records, course_id, fp, artifact) {
        upsert(records, fresh_record(course_id, fp, now))
    } else {
        records
    }
}

/// What committing content with fingerprint `fp` reports.
pub open spec fn commit_result(
    records: Seq<RecordView>,
    course_id: u64,
    fp: u64,
    artifact: ArtifactWrite,
    now: Timestamp,
) -> Result<ReceiptView, Error> {
    if durable(records, course_id, fp, artifact) {
        Ok(
            ReceiptView {
                status: if unchanged_content(records, course_id, fp) {
                    PublishStatus::Unchanged
                } else {
                    PublishStatus::Published
                },
                record: fresh_record(course_id, fp, now),
            },
        )
    } else {
        Err(Error::Io)
    }
}

/// The records after one delivery.
pub open spec fn delivery_records(
    records: Seq<RecordView>,
    course_id: u64,
    delivery: Delivery,
    now: Timestamp,
) -> Seq<RecordView> {
    match delivery {
        Delivery::FetchFailed(_) => records,
        Delivery::Fetched { payload, artifact } => commit_records(
            records,
            course_id,
            fingerprint_of(payload@),
            artifact,
            now,
        ),
    }
}

/// What one delivery reports.
pub open spec fn delivery_result(
    records: Seq<RecordView>,
    course_id: u64,
    delivery: Delivery,
    now: Timestamp,
) -> Result<ReceiptView, Error> {
    match delivery {
        Delivery::FetchFailed(e) => Err(e),
        Delivery::Fetched { payload, artifact } => commit_result(
            records,
            course_id,
            fingerprint_of(payload@),
            artifact,
            now,
        ),
    }
}

/// The records after a batch, each delivery applied in turn to what the
/// ones before it left.
pub open spec fn batch_records(
    records: Seq<RecordView>,
    batch: Seq<Submission>,
    now: Timestamp,
) -> Seq<RecordView>
    decreases batch.len(),
{
    if batch.len() == 0 {
        records
    } else {
        delivery_records(
            batch_records(records, batch.drop_last(), now),
            batch.last().course_id,
            batch.last().delivery,
            now,
        )
    }
}

/// What a batch reports: one outcome for each submission, in the order of
/// the submissions.
pub open spec fn batch_results(
    records: Seq<RecordView>,
    batch: Seq<Submission>,
    now: Timestamp,
) -> Seq<Result<ReceiptView, Error>>
    decreases batch.len(),
{
    if batch.len() == 0 {
        Seq::empty()
    } else {
        batch_results(records, batch.drop_last(), now).push(
            delivery_result(
                batch_records(records, batch.drop_last(), now),
                batch.last().course_id,
                batch.last().delivery,
                now,
            ),
        )
    }
}

/// The records without the first record of the course.
pub open spec fn unpublish_records(records: Seq<RecordView>, course_id: u64) -> Seq<RecordView> {
    let i = position(records, course_id);
    if i < records.len() {
        records.remove(i)
    } else {
        records
    }
}

/// What unpublishing reports: the record that was removed, or that the
/// course was not published.
pub open spec fn unpublish_result(records: Seq<RecordView>, course_id: u64) -> Result<
    RecordView,
    Error,
> {
    let i = position(records, course_id);
    if i < records.len() {
        Ok(records[i])
    } else {
        Err(Error::NotPublished)
    }
}

/// Says what has to happen before the payload of a course can be
/// committed: under which name its artifact goes, what its fingerprint is,
/// and whether the artifact has to be written. It need not be written when
/// the course is recorded with the same fingerprint.
pub fn plan_publish(records: &Vec<PublishRecord>, course_id: u64, payload: &Vec<u8>) -> (plan:
    PublishPlan)
    ensures
        plan.course_id == course_id,
        plan.location@ == artifact_name(course_id),
        plan.fingerprint == fingerprint_of(payload@),
        plan.write_artifact == !unchanged_content(
            record_views(records@),
            course_id,
            fingerprint_of(payload@),
        ),
{
    let fp = fingerprint(payload);
    let i = find_record(records, course_id);
    let unchanged = i < records.len() && records[i].fingerprint == fp;
    PublishPlan {
        course_id,
        location: artifact_location(course_id),
        fingerprint: fp,
        write_artifact: !unchanged,
    }
}

/// Commits what was brought back for one course.
///
/// A failed fetch is handed on and a failed write is an `Io` failure, as is
/// a skipped write for content that is not recorded; in each of these the
/// records stay as they were. Otherwise the course's record is replaced, or
/// added at the end, by one with the payload's fingerprint and the instant
/// `now`, and the receipt says whether the content was new.
pub fn publish(
    records: &mut Vec<PublishRecord>,
    course_id: u64,
    delivery: &Delivery,
    now: Timestamp,
) -> (outcome: Result<Receipt, Error>)
    ensures
        record_views(final(records)@) == delivery_records(
            record_views(old(records)@),
            course_id,
            *delivery,
            now,
        ),
        outcome_view(outcome) == delivery_result(
            record_views(old(records)@),
            course_id,
            *delivery,
            now,
        ),
        distinct_records(record_views(old(records)@)) ==> distinct_records(
            record_views(final(records)@),
        ),
        well_placed(record_views(old(records)@)) ==> well_placed(record_views(final(records)@)),
{
    let ghost before = record_views(records@);
    match delivery {
        Delivery::FetchFailed(e) => Err(*e),
        Delivery::Fetched { payload, artifact } => {
            let fp = fingerprint(payload);
            let i = find_record(records, course_id);
            let unchanged = i < records.len() && records[i].fingerprint == fp;
            let committed = match artifact {
                ArtifactWrite::Written => true,
                ArtifactWrite::Skipped => unchanged,
                ArtifactWrite::Failed => false,
            };
            if !committed {
                return Err(Error::Io);
            }
            let record = PublishRecord {
                course_id,
                location: artifact_location(course_id),
                published_at: now,
                fingerprint: fp,
            };
            let copy = record.clone();
            if i < records.len() {
                records.set(i, record);
                assert(record_views(records@) =~= before.update(i as int, copy@));
            } else {
                records.push(record);
            }
            proof {
                lemma_upsert_keeps_distinct(before, fresh_record(course_id, fp, now));
            }
            Ok(
                Receipt {
                    status: if unchanged {
                        PublishStatus::Unchanged
                    } else {
                        PublishStatus::Published
                    },
                    record: copy,
                },
            )
        },
    }
}

/// Commits a batch, one submission after the other. A failure concerns its
/// own course only: the submissions after it are still committed. The
/// outcomes come back in the order of the submissions.
pub fn publish_many(records: &mut Vec<PublishRecord>, batch: &Vec<Submission>, now: Timestamp) -> (outcomes:
    Vec<Result<Receipt, Error>>)
    ensures
        outcomes.len() == batch.len(),
        record_views(final(records)@) == batch_records(record_views(old(records)@), batch@, now),
        outcome_views(outcomes@) == batch_results(record_views(old(records)@), batch@, now),
        distinct_records(record_views(old(records)@)) ==> distinct_records(
            record_views(final(records)@),
        ),
        well_placed(record_views(old(records)@)) ==> well_placed(record_views(final(records)@)),
{
    let ghost before = record_views(records@);
    let mut outcomes: Vec<Result<Receipt, Error>> = Vec::new();
    let mut i: usize = 0;
    while i < batch.len()
        invariant
            i <= batch.len(),
            outcomes.len() == i,
            record_views(records@) == batch_records(before, batch@.take(i as int), now),
            outcome_views(outcomes@) == batch_results(before, batch@.take(i as int), now),
            distinct_records(before) ==> distinct_records(record_views(records@)),
            well_placed(before) ==> well_placed(record_views(records@)),
        decreases batch.len() - i,
    {
        proof {
            assert(batch@.take(i + 1).drop_last() =~= batch@.take(i as int));
        }
        let outcome = publish(records, batch[i].course_id, &batch[i].delivery, now);
        outcomes.push(outcome);
        i += 1;
    }
    assert(batch@.take(i as int) =~= batch@);
    outcomes
}

/// Removes the record of a course and hands it back, so that the caller
/// can remove its artifact. A course without a record is reported as not
/// published, and the records stay as they were.
pub fn unpublish(records: &mut Vec<PublishRecord>, course_id: u64) -> (removed: Result<
    PublishRecord,
    Error,
>)
    ensures
        record_views(final(records)@) == unpublish_records(record_views(old(records)@), course_id),
        match removed {
            Ok(record) => unpublish_result(record_views(old(records)@), course_id) == Ok::<
                RecordView,
                Error,
            >(record@),
            Err(e) => unpublish_result(record_views(old(records)@), course_id) == Err::<
                RecordView,
                Error,
            >(e),
        },
        removed is Err <==> !is_published(record_views(old(records)@), course_id),
        removed is Err ==> removed == Err::<PublishRecord, Error>(Error::NotPublished),
        removed is Err ==> final(records)@ == old(records)@,
        distinct_records(record_views(old(records)@)) ==> distinct_records(
            record_views(final(records)@),
        ) && !is_published(record_views(final(records)@), course_id),
        well_placed(record_views(old(records)@)) ==> well_placed(record_views(final(records)@)),
{
    let ghost before = record_views(records@);
    proof {
        lemma_position(before, course_id);
        if distinct_records(before) {
            lemma_unpublish_clears(before, course_id);
        }
    }
    let i = find_record(records, course_id);
    if i < records.len() {
        let record = records.remove(i);
        assert(record_views(records@) =~= before.remove(i as int));
        Ok(record)
    } else {
        Err(Error::NotPublished)
    }
}

/// The records of all published courses, in the order in which the courses
/// were first published.
pub fn list_published(records: &Vec<PublishRecord>) -> (list: Vec<PublishRecord>)
    ensures
        record_views(list@) == record_views(records@),
{
    let mut list: Vec<PublishRecord> = Vec::new();
    let mut i: usize = 0;
    while i < records.len()
        invariant
            i <= records.len(),
            list.len() == i,
            forall|k: int| 0 <= k < i ==> list@[k]@ == records@[k]@,
        decreases records.len() - i,
    {
        list.push(records[i].clone());
        i += 1;
    }
    list
}

/// Replacing or adding the record of a course leaves one record for that
/// course, and never two for any course that had one.
pub proof fn lemma_upsert_keeps_distinct(records: Seq<RecordView>, record: RecordView)
    ensures
        is_published(upsert(records, record), record.course_id),
        upsert(records, record)[position(upsert(records, record), record.course_id)] == record,
        position(upsert(records, record), record.course_id) == position(records, record.course_id),
        distinct_records(records) ==> distinct_records(upsert(records, record)),
{
    lemma_position(records, record.course_id);
    let after = upsert(records, record);
    lemma_position_is(after, record.course_id, position(records, record.course_id));
    lemma_position(after, record.course_id);
}

/// Where no course has two records, removing the record of a course leaves
/// none for it and keeps the others, each once.
pub proof fn lemma_unpublish_clears(records: Seq<RecordView>, course_id: u64)
    requires
        distinct_records(records),
    ensures
        distinct_records(unpublish_records(records, course_id)),
        !is_published(unpublish_records(records, course_id), course_id),
{
    lemma_position(records, course_id);
    let i = position(records, course_id);
    let after = unpublish_records(records, course_id);
    if i < records.len() {
        assert forall|k: int| 0 <= k < after.len() implies after[k].course_id != course_id by {
            assert(after[k] == records[if k < i { k } else { k + 1 }]);
        }
        assert forall|a: int, b: int| 0 <= a < b < after.len() implies after[a].course_id
            != after[b].course_id by {
            assert(after[a] == records[if a < i { a } else { a + 1 }]);
            assert(after[b] == records[if b < i { b } else { b + 1 }]);
        }
    }
}

/// A plan that is followed commits. When the artifact is written where
/// the content is new, and the write is skipped where the content is
/// recorded already, the commit succeeds and leaves the course published
/// with that content.
pub proof fn lemma_followed_plan_commits(
    records: Seq<RecordView>,
    course_id: u64,
    fp: u64,
    now: Timestamp,
)
    ensures
        ({
            let artifact = if unchanged_content(records, course_id, fp) {
                ArtifactWrite::Skipped
            } else {
                ArtifactWrite::Written
            };
            &&& commit_result(records, course_id, fp, artifact, now) is Ok
            &&& unchanged_content(
                commit_records(records, course_id, fp, artifact, now),
                course_id,
                fp,
            )
        }),
{
    let record = fresh_record(course_id, fp, now);
    lemma_upsert_keeps_distinct(records, record);
    lemma_position(upsert(records, record), course_id);
}

/// Publishing is idempotent. When content with fingerprint `fp` was
/// committed for a course, committing the same content again, written anew
/// or skipped, succeeds and reports it unchanged; the course keeps its one
/// record in its place, with the same fingerprint and artifact name, and
/// only the instant of publishing moves on.
pub proof fn lemma_publish_idempotent(
    records: Seq<RecordView>,
    course_id: u64,
    fp: u64,
    first: ArtifactWrite,
    second: ArtifactWrite,
    earlier: Timestamp,
    later: Timestamp,
)
    requires
        distinct_records(records),
        durable(records, course_id, fp, first),
        second != ArtifactWrite::Failed,
    ensures
        ({
            let once = commit_records(records, course_id, fp, first, earlier);
            let twice = commit_records(once, course_id, fp, second, later);
            let at = position(once, course_id);
            &&& commit_result(once, course_id, fp, second, later) == Ok::<ReceiptView, Error>(
                ReceiptView {
                    status: PublishStatus::Unchanged,
                    record: fresh_record(course_id, fp, later),
                },
            )
            &&& twice == once.update(at, fresh_record(course_id, fp, later))
            &&& twice.len() == once.len()
            &&& twice[at].fingerprint == once[at].fingerprint
            &&& twice[at].location == once[at].location
            &&& distinct_records(twice)
            &&& forall|k: int|
                0 <= k < twice.len() && twice[k].course_id == course_id ==> k == at
        }),
{
    let once = commit_records(records, course_id, fp, first, earlier);
    lemma_upsert_keeps_distinct(records, fresh_record(course_id, fp, earlier));
    lemma_position(once, course_id);
    let twice = commit_records(once, course_id, fp, second, later);
    lemma_upsert_keeps_distinct(once, fresh_record(course_id, fp, later));
    lemma_position(twice, course_id);
    let at = position(once, course_id);
    assert forall|k: int| 0 <= k < twice.len() && twice[k].course_id == course_id implies k
        == at by {
        if k < at {
            assert(twice[k].course_id != twice[at].course_id);
        } else if at < k {
            assert(twice[at].course_id != twice[k].course_id);
        }
    }
}

/// Publishing a course and then unpublishing it leaves no record of it:
/// the unpublish succeeds with the record that the publish made, and the
/// list of published courses no longer holds the course.
pub proof fn lemma_publish_then_unpublish(
    records: Seq<RecordView>,
    course_id: u64,
    fp: u64,
    artifact: ArtifactWrite,
    now: Timestamp,
)
    requires
        distinct_records(records),
        durable(records, course_id, fp, artifact),
    ensures
        ({
            let published = commit_records(records, course_id, fp, artifact, now);
            let cleared = unpublish_records(published, course_id);
            &&& unpublish_result(published, course_id) == Ok::<RecordView, Error>(
                fresh_record(course_id, fp, now),
            )
            &&& !is_published(cleared, course_id)
            &&& forall|k: int| 0 <= k < cleared.len() ==> cleared[k].course_id != course_id
            &&& distinct_records(cleared)
        }),
{
    let published = commit_records(records, course_id, fp, artifact, now);
    lemma_upsert_keeps_distinct(records, fresh_record(course_id, fp, now));
    lemma_unpublish_clears(published, course_id);
}

/// Unpublishing a course that was never published fails as not published
/// and alters nothing.
pub proof fn lemma_unpublish_unpublished(records: Seq<RecordView>, course_id: u64)
    requires
        !is_published(records, course_id),
    ensures
        unpublish_result(records, course_id) == Err::<RecordView, Error>(Error::NotPublished),
        unpublish_records(records, course_id) == records,
{
    lemma_position(records, course_id);
}

/// A batch reports one outcome for each submission.
pub proof fn lemma_batch_len(records: Seq<RecordView>, batch: Seq<Submission>, now: Timestamp)
    ensures
        batch_results(records, batch, now).len() == batch.len(),
    decreases batch.len(),
{
    if batch.len() > 0 {
        lemma_batch_len(records, batch.drop_last(), now);
    }
}

/// The outcome at an index of a batch is that of its submission against
/// the records that the submissions before it left: a failure earlier in
/// the batch stops nothing after it.
pub proof fn lemma_batch_outcomes(
    records: Seq<RecordView>,
    batch: Seq<Submission>,
    now: Timestamp,
    i: int,
)
    requires
        0 <= i < batch.len(),
    ensures
        batch_results(records, batch, now).len() == batch.len(),
        batch_results(records, batch, now)[i] == delivery_result(
            batch_records(records, batch.take(i), now),
            batch[i].course_id,
            batch[i].delivery,
            now,
        ),
    decreases batch.len(),
{
    let head = batch.drop_last();
    lemma_batch_len(records, batch, now);
    lemma_batch_len(records, head, now);
    if i < batch.len() - 1 {
        lemma_batch_outcomes(records, head, now, i);
        assert(head.take(i) =~= batch.take(i));
    } else {
        assert(batch.take(i) =~= head);
    }
}

} // verus!

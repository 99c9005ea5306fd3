//! Catalog lookups.
//!
//! A catalog is an ordered sequence of records read from one backing
//! file; the store re-reads the file on every request and never
//! reorders what it read. Looking a record up scans that sequence for
//! the first entry carrying the requested identifier and answers
//! `NotFound` when no entry carries it.

use vstd::prelude::*;

use crate::errors::AppError;
use crate::models::Article;
use crate::models::Dataset;
use crate::models::Model;
use crate::models::Toolkit;
use crate::models::UseCase;

verus! {

/// A catalog record: anything a client may request by its identifier.
pub trait CatalogRecord: Sized {
    /// The record's identifier.
    spec fn id_spec(&self) -> u8;

    /// Reads the record's identifier.
    fn record_id(&self) -> (id: u8)
        ensures
            id == self.id_spec(),
    ;
}

impl CatalogRecord for Dataset {
    open spec fn id_spec(&self) -> u8 {
        self.id
    }

    fn record_id(&self) -> (id: u8) {
        self.id
    }
}

impl CatalogRecord for Model {
    open spec fn id_spec(&self) -> u8 {
        self.id
    }

    fn record_id(&self) -> (id: u8) {
        self.id
    }
}

impl CatalogRecord for Toolkit {
    open spec fn id_spec(&self) -> u8 {
        self.id
    }

    fn record_id(&self) -> (id: u8) {
        self.id
    }
}

impl CatalogRecord for UseCase {
    open spec fn id_spec(&self) -> u8 {
        self.id
    }

    fn record_id(&self) -> (id: u8) {
        self.id
    }
}

impl CatalogRecord for Article {
    open spec fn id_spec(&self) -> u8 {
        self.id
    }

    fn record_id(&self) -> (id: u8) {
        self.id
    }
}

/// What looking `id` up in `records` must return: the first record
/// carrying that identifier, or `NotFound` when no record carries it.
pub open spec fn lookup_result<T: CatalogRecord>(
    records: Seq<T>,
    id: u8,
    r: Result<T, AppError>,
) -> bool {
    match r {
        Result::Ok(rec) => exists|i: int|
            0 <= i < records.len() && #[trigger] records[i].id_spec() == id && rec == records[i]
                && (forall|j: int| 0 <= j < i ==> records[j].id_spec() != id),
        Result::Err(e) => e == AppError::NotFound && (forall|i: int|
            0 <= i < records.len() ==> #[trigger] records[i].id_spec() != id),
    }
}

/// Scans a catalog for the first record carrying `id`.
pub fn find_record<T: CatalogRecord>(records: Vec<T>, id: u8) -> (r: Result<T, AppError>)
    ensures
        lookup_result(records@, id, r),
{
    let mut recs = records;
    let mut i: usize = 0;
    while i < recs.len()
        invariant
            recs@ == records@,
            i <= recs@.len(),
            forall|j: int| 0 <= j < i ==> #[trigger] records@[j].id_spec() != id,
        decreases recs@.len() - i,
    {
        if recs[i].record_id() == id {
            let ghost found = i as int;
            let rec = recs.remove(i);
            proof {
                assert(rec == records@[found] && records@[found].id_spec() == id);
            }
            return Result::Ok(rec);
        }
        i = i + 1;
    }
    Result::Err(AppError::NotFound)
}

pub fn get_dataset_by_id(datasets: Vec<Dataset>, id: u8) -> (r: Result<Dataset, AppError>)
    ensures
        lookup_result(datasets@, id, r),
{
    find_record(datasets, id)
}

pub fn get_model_by_id(models: Vec<Model>, id: u8) -> (r: Result<Model, AppError>)
    ensures
        lookup_result(models@, id, r),
{
    find_record(models, id)
}

pub fn get_toolkit_by_id(toolkits: Vec<Toolkit>, id: u8) -> (r: Result<Toolkit, AppError>)
    ensures
        lookup_result(toolkits@, id, r),
{
    find_record(toolkits, id)
}

pub fn get_usecase_by_id(usecases: Vec<UseCase>, id: u8) -> (r: Result<UseCase, AppError>)
    ensures
        lookup_result(usecases@, id, r),
{
    find_record(usecases, id)
}

pub fn get_article_by_id(articles: Vec<Article>, id: u8) -> (r: Result<Article, AppError>)
    ensures
        lookup_result(articles@, id, r),
{
    find_record(articles, id)
}

/// No two records of the catalog share an identifier.
pub open spec fn distinct_ids<T: CatalogRecord>(records: Seq<T>) -> bool {
    forall|i: int, j: int|
        0 <= i < j < records.len() ==> #[trigger] records[i].id_spec() != #[trigger] records[j].id_spec()
}

/// An identifier that no record carries is answered with `NotFound`.
pub proof fn lemma_lookup_absent<T: CatalogRecord>(records: Seq<T>, id: u8, r: Result<T, AppError>)
    requires
        lookup_result(records, id, r),
        forall|i: int| 0 <= i < records.len() ==> #[trigger] records[i].id_spec() != id,
    ensures
        r == Result::<T, AppError>::Err(AppError::NotFound),
{
}

/// Under distinct identifiers — the shape catalog files satisfy — a
/// lookup of a present identifier returns exactly the record carrying
/// it; a lookup of an absent one returns `NotFound` by `lookup_result`
/// directly.
pub proof fn lemma_lookup_unique<T: CatalogRecord>(
    records: Seq<T>,
    id: u8,
    r: Result<T, AppError>,
    i: int,
)
    requires
        lookup_result(records, id, r),
        distinct_ids(records),
        0 <= i < records.len(),
        records[i].id_spec() == id,
    ensures
        r == Result::<T, AppError>::Ok(records[i]),
{
    match r {
        Result::Ok(rec) => {
            let k = choose|k: int|
                0 <= k < records.len() && #[trigger] records[k].id_spec() == id && rec == records[k]
                    && (forall|j: int| 0 <= j < k ==> records[j].id_spec() != id);
            assert(k == i);
        },
        Result::Err(_) => {
            assert(records[i].id_spec() != id);
        },
    }
}

} // verus!

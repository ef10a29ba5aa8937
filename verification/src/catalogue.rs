//! The tenant catalogue: a set of tenant records keyed by tenant id, in
//! which no id occurs twice.

use vstd::prelude::*;
use crate::tenancy::TenantId;

verus! {

/// One tenant in the catalogue. Display name and notes are operator
/// facing; the platform routes only off `id`.
#[derive(Debug, Clone)]
pub struct TenantRecord {
    pub id: TenantId,
    pub display_name: Option<String>,
    pub notes: Option<String>,
}

/// The ids of a sequence of records, in order.
pub open spec fn record_ids(s: Seq<TenantRecord>) -> Seq<Seq<char>> {
    s.map_values(|r: TenantRecord| r.id@)
}

/// The record a key maps to in a sequence with distinct ids.
pub open spec fn records_map(s: Seq<TenantRecord>) -> Map<Seq<char>, TenantRecord> {
    Map::new(
        |k: Seq<char>| record_ids(s).contains(k),
        |k: Seq<char>| s[record_ids(s).index_of(k)],
    )
}

/// Position `j` repeats an id that occurs at an earlier position.
pub open spec fn repeats_earlier(ids: Seq<Seq<char>>, j: int) -> bool {
    exists|i: int| 0 <= i < j && ids[i] == ids[j]
}

/// `j` is the first position of `ids` that repeats an earlier id.
pub open spec fn is_first_repeat(ids: Seq<Seq<char>>, j: int) -> bool {
    &&& 0 <= j < ids.len()
    &&& repeats_earlier(ids, j)
    &&& forall|k: int| 0 <= k < j ==> !repeats_earlier(ids, k)
}

/// Catalogue construction and lookup errors.
#[derive(Debug)]
pub enum CatalogueError {
    /// The catalogue file could not be read.
    Read { path: String, message: String },
    /// The catalogue file could not be parsed.
    Parse { path: String, message: String },
    /// Two records carry the same id; carries the repeated id.
    DuplicateTenant(TenantId),
}

impl CatalogueError {
    /// The operator-facing message of each error.
    pub open spec fn message_text(&self) -> Seq<char> {
        match self {
            CatalogueError::Read { path, message } =>
                "cannot read tenant catalogue "@ + path@ + ": "@ + message@,
            CatalogueError::Parse { path, message } => path@ + ": "@ + message@,
            CatalogueError::DuplicateTenant(id) => "duplicate tenant id: "@ + id@,
        }
    }

    /// Render the operator-facing message.
    pub fn message(&self) -> (s: String)
        ensures
            s@ == self.message_text(),
    {
        match self {
            CatalogueError::Read { path, message } => {
                let mut s = String::from_str("cannot read tenant catalogue ");
                s.append(path.as_str());
                s.append(": ");
                s.append(message.as_str());
                s
            },
            CatalogueError::Parse { path, message } => {
                let mut s = path.clone();
                s.append(": ");
                s.append(message.as_str());
                s
            },
            CatalogueError::DuplicateTenant(id) => {
                let mut s = String::from_str("duplicate tenant id: ");
                s.append(id.0.as_str());
                s
            },
        }
    }
}

/// Typed catalogue of tenant records. No id occurs twice.
#[derive(Debug)]
pub struct TenantCatalogue {
    records: Vec<TenantRecord>,
}

impl View for TenantCatalogue {
    type V = Map<Seq<char>, TenantRecord>;

    closed spec fn view(&self) -> Map<Seq<char>, TenantRecord> {
        records_map(self.records@)
    }
}

proof fn lemma_records_map_len(s: Seq<TenantRecord>)
    requires
        record_ids(s).no_duplicates(),
    ensures
        records_map(s).dom() =~= record_ids(s).to_set(),
        records_map(s).dom().finite(),
        records_map(s).len() == s.len(),
{
    let ids = record_ids(s);
    assert(records_map(s).dom() =~= ids.to_set());
    ids.unique_seq_to_set();
}

proof fn lemma_records_map_index(s: Seq<TenantRecord>, i: int)
    requires
        record_ids(s).no_duplicates(),
        0 <= i < s.len(),
    ensures
        records_map(s).contains_key(s[i].id@),
        records_map(s)[s[i].id@] == s[i],
{
    let ids = record_ids(s);
    assert(ids[i] == s[i].id@);
    assert(ids.contains(s[i].id@));
    let j = ids.index_of(s[i].id@);
    assert(ids[j] == ids[i]);
}

proof fn lemma_absent(s: Seq<TenantRecord>, id: Seq<char>)
    requires
        forall|m: int| 0 <= m < s.len() ==> s[m].id@ != id,
    ensures
        !records_map(s).contains_key(id),
{
    if record_ids(s).contains(id) {
        let j = record_ids(s).index_of(id);
        assert(s[j].id@ == id);
    }
}

/// The first position of a record with the given id.
fn find_id(records: &Vec<TenantRecord>, id: &TenantId) -> (r: Option<usize>)
    ensures
        match r {
            Some(k) => k < records@.len() && records@[k as int].id@ == id@,
            None => forall|m: int| 0 <= m < records@.len() ==> records@[m].id@ != id@,
        },
{
    let mut k: usize = 0;
    while k < records.len()
        invariant
            k <= records@.len(),
            forall|m: int| 0 <= m < k ==> records@[m].id@ != id@,
        decreases records@.len() - k,
    {
        if records[k].id.0 == id.0 {
            return Some(k);
        }
        k = k + 1;
    }
    None
}

impl Default for TenantCatalogue {
    /// The empty catalogue.
    fn default() -> (c: TenantCatalogue)
        ensures
            c@ == Map::<Seq<char>, TenantRecord>::empty(),
    {
        TenantCatalogue::empty()
    }
}

impl TenantCatalogue {
    #[verifier::type_invariant]
    closed spec fn ids_distinct(self) -> bool {
        record_ids(self.records@).no_duplicates()
    }

    /// An empty catalogue.
    pub fn empty() -> (c: TenantCatalogue)
        ensures
            c@ == Map::<Seq<char>, TenantRecord>::empty(),
    {
        let c = TenantCatalogue { records: Vec::new() };
        assert(c@ =~= Map::<Seq<char>, TenantRecord>::empty());
        c
    }

    /// Construct from a list of records. Refuses the first record whose id
    /// repeats an earlier record's id; otherwise every record is registered
    /// under its id.
    pub fn from_records(records: Vec<TenantRecord>) -> (r: Result<TenantCatalogue, CatalogueError>)
        ensures
            match r {
                Ok(c) => {
                    &&& forall|j: int| 0 <= j < records@.len() ==> !repeats_earlier(record_ids(records@), j)
                    &&& c@ == records_map(records@)
                    &&& c@.len() == records@.len()
                },
                Err(CatalogueError::DuplicateTenant(id)) => exists|j: int|
                    is_first_repeat(record_ids(records@), j) && id@ == records@[j].id@,
                Err(_) => false,
            },
    {
        let ghost input = records@;
        let n_records = records.len();
        let mut out: Vec<TenantRecord> = Vec::new();
        let mut rest = records;
        let ghost total = input.len();
        // `rest` holds the unvisited suffix.
        let mut i: usize = 0;
        while rest.len() > 0
            invariant
                total == input.len(),
                total == n_records,
                input == records@,
                i + rest@.len() == total,
                out@ == input.subrange(0, i as int),
                rest@ == input.subrange(i as int, total as int),
                record_ids(out@).no_duplicates(),
                forall|k: int| 0 <= k < i ==> !repeats_earlier(record_ids(input), k),
            decreases rest@.len(),
        {
            let record = rest.remove(0);
            assert(record == input[i as int]);
            let pos = find_id(&out, &record.id);
            if let Some(k) = pos {
                assert(out@[k as int] == input[k as int]);
                assert(record_ids(input)[k as int] == record_ids(input)[i as int]);
                assert(repeats_earlier(record_ids(input), i as int));
                assert(is_first_repeat(record_ids(input), i as int));
                assert(record.id@ == input[i as int].id@);
                let ghost witness = i as int;
                let dup = record.id;
                assert(is_first_repeat(record_ids(input), witness));
                assert(dup@ == input[witness].id@);
                return Err(CatalogueError::DuplicateTenant(dup));
            }
            proof {
                assert(!repeats_earlier(record_ids(input), i as int)) by {
                    assert forall|m: int| 0 <= m < i implies record_ids(input)[m]
                        != record_ids(input)[i as int] by {
                        assert(out@[m] == input[m]);
                    }
                }
            }
            let ghost old_out = out@;
            let ghost rid = record.id@;
            out.push(record);
            proof {
                assert(out@ =~= input.subrange(0, i + 1));
                let ids = record_ids(out@);
                let old_ids = record_ids(old_out);
                assert(ids.len() == i + 1);
                assert(ids[i as int] == rid);
                assert forall|m: int| 0 <= m < i implies ids[m] == old_ids[m] && old_ids[m]
                    != rid by {
                    assert(old_out[m].id@ != rid);
                }
                assert forall|a: int, b: int| 0 <= a < ids.len() && 0 <= b < ids.len() && a != b
                    implies ids[a] != ids[b] by {
                    if a < i && b < i {
                        assert(old_ids[a] != old_ids[b]);
                    }
                }
            }
            i = i + 1;
        }
        assert(out@ =~= input);
        assert(i == total);
        let c = TenantCatalogue { records: out };
        proof {
            lemma_records_map_len(input);
            assert(c@ == records_map(input));
        }
        Ok(c)
    }

    /// Is this tenant registered?
    pub fn contains(&self, id: &TenantId) -> (b: bool)
        ensures
            b == self@.contains_key(id@),
    {
        proof {
            use_type_invariant(self);
        }
        match find_id(&self.records, id) {
            Some(k) => {
                proof {
                    lemma_records_map_index(self.records@, k as int);
                }
                true
            },
            None => {
                proof {
                    lemma_absent(self.records@, id@);
                }
                false
            },
        }
    }

    /// Look up a tenant record; `None` if absent.
    pub fn get(&self, id: &TenantId) -> (r: Option<&TenantRecord>)
        ensures
            match r {
                Some(rec) => self@.contains_key(id@) && *rec == self@[id@],
                None => !self@.contains_key(id@),
            },
    {
        proof {
            use_type_invariant(self);
        }
        match find_id(&self.records, id) {
            Some(k) => {
                proof {
                    lemma_records_map_index(self.records@, k as int);
                }
                Some(&self.records[k])
            },
            None => {
                proof {
                    lemma_absent(self.records@, id@);
                }
                None
            },
        }
    }

    /// Number of registered tenants.
    pub fn len(&self) -> (n: usize)
        ensures
            n == self@.len(),
    {
        proof {
            use_type_invariant(self);
            lemma_records_map_len(self.records@);
        }
        self.records.len()
    }

    /// Is the catalogue empty?
    pub fn is_empty(&self) -> (b: bool)
        ensures
            b == (self@.len() == 0),
    {
        self.len() == 0
    }
}

} // verus!

//! The repository over the vehicle table: builds deterministic query
//! text for the composite key, delegates to the query executor, and
//! decodes the first matched row. "Not found" is a normal absence,
//! distinct from execution failure; a failed store is swallowed into
//! absence, as this store's callers expect.

use vstd::prelude::*;
use vstd::string::StringExecFns;

use crate::dao::rows::{QueryError, QueryResult, Row};
use crate::dao::session_manager::SessionManager;
use crate::domain::date::{iso_chars, push_date_iso, push_timestamp, timestamp_chars};
use crate::domain::uid::{push_uuid, uuid_chars, Uuid};
use crate::domain::vehicle::Vehicle;
use crate::repository::row_decoder::{
    decode_error_of, decode_vehicle, decoded_vehicle, row_decodes, DecodeError,
};
use crate::text::{dec_signed, push_char, push_i32_dec};

verus! {

/// How a repository operation fails: the executor gave up, or the
/// matched row did not decode.
#[derive(Debug, Clone, PartialEq)]
pub enum RepositoryError {
    Execution(QueryError),
    Decode(DecodeError),
}

/// The text of the fetch-one query over the composite key.
pub open spec fn select_query_chars(user_id: Uuid, vehicle_id: Uuid) -> Seq<char> {
    "SELECT name, user_id, vehicle_id, created_at, vehicle_type, retired_at, brand, model, distance, owner_since, manufacturing_date, picture FROM vehicles.vehicle WHERE user_id = "@
        + uuid_chars(user_id) + " and vehicle_id = "@ + uuid_chars(vehicle_id)
}

/// Builds the fetch-one query text.
pub fn select_query(user_id: &Uuid, vehicle_id: &Uuid) -> (q: String)
    ensures
        q@ == select_query_chars(*user_id, *vehicle_id),
{
    let mut q = String::new();
    q.append(
        "SELECT name, user_id, vehicle_id, created_at, vehicle_type, retired_at, brand, model, distance, owner_since, manufacturing_date, picture FROM vehicles.vehicle WHERE user_id = ",
    );
    push_uuid(&mut q, user_id);
    q.append(" and vehicle_id = ");
    push_uuid(&mut q, vehicle_id);
    assert(q@ =~= select_query_chars(*user_id, *vehicle_id));
    q
}

/// A quoted timestamp, or a bare `null` for an absent one.
pub open spec fn optional_timestamp_chars(t: Option<i64>) -> Seq<char> {
    match t {
        Some(s) => seq!['\''] + timestamp_chars(s as int) + seq!['\''],
        None => "null"@,
    }
}

/// A quoted text value, or a bare `null` for an absent one.
pub open spec fn optional_text_chars(p: Option<String>) -> Seq<char> {
    match p {
        Some(s) => seq!['\''] + s@ + seq!['\''],
        None => "null"@,
    }
}

/// The text of the store (insert/replace) statement, every field
/// value embedded in a fixed order.
pub open spec fn insert_query_chars(v: Vehicle) -> Seq<char> {
    "INSERT INTO vehicles.vehicle   (user_id,       vehicle_id,    vehicle_type,  name,          created_at,    retired_at,    brand,         model,         distance,      owner_since,   manufacturing_date, picture) VALUES ("@
        + uuid_chars(v.user_id) + ", "@ + uuid_chars(v.vehicle_id) + ", '"@ + v.vehicle_type@
        + "', '"@ + v.name@ + "', '"@ + timestamp_chars(v.created_at as int) + "', "@
        + optional_timestamp_chars(v.retired_at) + ", '"@ + v.brand@ + "', '"@ + v.model@ + "', "@
        + dec_signed(v.distance as int) + ", '"@ + iso_chars(v.owner_since) + "', '"@ + iso_chars(
        v.manufacturing_date,
    ) + "', "@ + optional_text_chars(v.picture) + ")"@
}

/// Builds the store statement text.
#[verifier::rlimit(100)]
pub fn insert_query(v: &Vehicle) -> (q: String)
    requires
        v.wf(),
    ensures
        q@ == insert_query_chars(*v),
{
    let mut q = String::new();
    q.append(
        "INSERT INTO vehicles.vehicle   (user_id,       vehicle_id,    vehicle_type,  name,          created_at,    retired_at,    brand,         model,         distance,      owner_since,   manufacturing_date, picture) VALUES (",
    );
    push_uuid(&mut q, &v.user_id);
    q.append(", ");
    push_uuid(&mut q, &v.vehicle_id);
    q.append(", '");
    q.append(v.vehicle_type.as_str());
    q.append("', '");
    q.append(v.name.as_str());
    q.append("', '");
    push_timestamp(&mut q, v.created_at);
    q.append("', ");
    match &v.retired_at {
        Some(t) => {
            push_char(&mut q, '\'');
            push_timestamp(&mut q, *t);
            push_char(&mut q, '\'');
        },
        None => {
            q.append("null");
        },
    }
    q.append(", '");
    q.append(v.brand.as_str());
    q.append("', '");
    q.append(v.model.as_str());
    q.append("', ");
    push_i32_dec(&mut q, v.distance);
    q.append(", '");
    push_date_iso(&mut q, &v.owner_since);
    q.append("', '");
    push_date_iso(&mut q, &v.manufacturing_date);
    q.append("', ");
    match &v.picture {
        Some(p) => {
            push_char(&mut q, '\'');
            q.append(p.as_str());
            push_char(&mut q, '\'');
        },
        None => {
            q.append("null");
        },
    }
    q.append(")");
    assert(q@ =~= insert_query_chars(*v));
    q
}

/// The first row of a result set, where there is one.
pub open spec fn first_row(rs: QueryResult) -> Option<Row> {
    match rs.rows {
        None => None,
        Some(rows) => if rows@.len() == 0 {
            None
        } else {
            Some(rows@[0])
        },
    }
}

/// What one executor result means to a fetch: failures propagate, an
/// empty row set is a normal absence, and the first row must decode.
pub open spec fn interp_get(o: Result<QueryResult, QueryError>) -> Result<
    Option<Vehicle>,
    RepositoryError,
> {
    match o {
        Err(e) => Err(RepositoryError::Execution(e)),
        Ok(rs) => match first_row(rs) {
            None => Ok(None),
            Some(row) => if row_decodes(row) {
                Ok(Some(decoded_vehicle(row)))
            } else {
                Err(RepositoryError::Decode(decode_error_of(row)))
            },
        },
    }
}

/// What the service depends on: fetch one vehicle by key, store one
/// vehicle. The models are the sequences of outcomes that successive
/// fetches and stores hand back.
pub trait VehicleRepository: Sized {
    spec fn get_results(&self) -> Seq<Result<Option<Vehicle>, RepositoryError>>;

    spec fn save_accepts(&self) -> Seq<bool>;

    /// Fetches the vehicle stored under (`user_id`, `vehicle_id`):
    /// the next modelled fetch outcome comes back, or some failure
    /// once the model pins nothing down.
    fn get_vehicle(&mut self, user_id: Uuid, vehicle_id: Uuid) -> (r: Result<
        Option<Vehicle>,
        RepositoryError,
    >)
        ensures
            old(self).get_results().len() > 0 ==> r == old(self).get_results()[0]
                && final(self).get_results() == old(self).get_results().drop_first(),
            old(self).get_results().len() == 0 ==> r is Err && final(self).get_results().len()
                == 0,
    ;

    /// Stores one vehicle: the vehicle itself comes back as
    /// confirmation, or absence where the store failed.
    fn save_vehicle(&mut self, vehicle: Vehicle) -> (r: Option<Vehicle>)
        requires
            vehicle.wf(),
        ensures
            old(self).save_accepts().len() > 0 ==> (if old(self).save_accepts()[0] {
                r == Some(vehicle)
            } else {
                r is None
            }) && final(self).save_accepts() == old(self).save_accepts().drop_first(),
            old(self).save_accepts().len() == 0 ==> r is None && final(self).save_accepts().len()
                == 0,
    ;
}

/// The repository over an injected query executor.
pub struct VehicleRepositoryImpl<S: SessionManager> {
    pub queriable: S,
}

impl<S: SessionManager> VehicleRepositoryImpl<S> {
    pub fn new(queriable: S) -> (r: VehicleRepositoryImpl<S>)
        ensures
            r.queriable == queriable,
    {
        VehicleRepositoryImpl { queriable }
    }
}

impl<S: SessionManager> VehicleRepository for VehicleRepositoryImpl<S> {
    open spec fn get_results(&self) -> Seq<Result<Option<Vehicle>, RepositoryError>> {
        self.queriable.results().map_values(|o| interp_get(o))
    }

    open spec fn save_accepts(&self) -> Seq<bool> {
        self.queriable.results().map_values(
            |o: Result<QueryResult, QueryError>| o is Ok,
        )
    }

    /// Builds the fetch-one query, executes it, and decodes the first
    /// row if any: absence is `Ok(None)`, execution failure and a
    /// non-decoding row are errors.
    fn get_vehicle(&mut self, user_id: Uuid, vehicle_id: Uuid) -> (r: Result<
        Option<Vehicle>,
        RepositoryError,
    >) {
        let query = select_query(&user_id, &vehicle_id);
        let result = self.queriable.execute_query(query.as_str());
        proof {
            let res = old(self).queriable.results();
            if res.len() > 0 {
                assert(self.get_results() =~= old(self).get_results().drop_first());
            }
        }
        match result {
            Err(e) => Err(RepositoryError::Execution(e)),
            Ok(rs) => {
                match rs.rows {
                    None => Ok(None),
                    Some(mut rows) => {
                        if rows.len() == 0 {
                            Ok(None)
                        } else {
                            let row = rows.remove(0);
                            match decode_vehicle(&row) {
                                Ok(v) => Ok(Some(v)),
                                Err(e) => Err(RepositoryError::Decode(e)),
                            }
                        }
                    },
                }
            },
        }
    }

    /// Builds the store statement and executes it: on success the
    /// vehicle comes back as confirmation; a failed store is
    /// swallowed into absence.
    fn save_vehicle(&mut self, vehicle: Vehicle) -> (r: Option<Vehicle>) {
        let query = insert_query(&vehicle);
        let result = self.queriable.execute_query(query.as_str());
        proof {
            let res = old(self).queriable.results();
            if res.len() > 0 {
                assert(self.save_accepts() =~= old(self).save_accepts().drop_first());
            }
        }
        match result {
            Ok(_) => Some(vehicle),
            Err(_) => None,
        }
    }
}

/// A repository double driven by scripts of outcomes, the seam the
/// service tests substitute for a store-backed repository.
pub struct ScriptedRepository {
    get_script: Vec<Result<Option<Vehicle>, RepositoryError>>,
    save_script: Vec<bool>,
}

impl ScriptedRepository {
    /// A repository that will hand back exactly the scripted
    /// outcomes.
    pub fn new(
        get_script: Vec<Result<Option<Vehicle>, RepositoryError>>,
        save_script: Vec<bool>,
    ) -> (r: ScriptedRepository)
        ensures
            r.get_results() == get_script@,
            r.save_accepts() == save_script@,
    {
        ScriptedRepository { get_script, save_script }
    }

    /// How many scripted fetch outcomes have not been consumed yet.
    pub fn remaining_gets(&self) -> (n: usize)
        ensures
            n == self.get_results().len(),
    {
        self.get_script.len()
    }

    /// How many scripted store outcomes have not been consumed yet.
    pub fn remaining_saves(&self) -> (n: usize)
        ensures
            n == self.save_accepts().len(),
    {
        self.save_script.len()
    }
}

impl VehicleRepository for ScriptedRepository {
    closed spec fn get_results(&self) -> Seq<Result<Option<Vehicle>, RepositoryError>> {
        self.get_script@
    }

    closed spec fn save_accepts(&self) -> Seq<bool> {
        self.save_script@
    }

    fn get_vehicle(&mut self, _user_id: Uuid, _vehicle_id: Uuid) -> (r: Result<
        Option<Vehicle>,
        RepositoryError,
    >) {
        if self.get_script.len() > 0 {
            let out = self.get_script.remove(0);
            assert(self.get_script@ =~= old(self).get_script@.drop_first());
            out
        } else {
            Err(
                RepositoryError::Execution(
                    QueryError::InvalidMessage(String::from_str("no scripted fetch outcome left")),
                ),
            )
        }
    }

    fn save_vehicle(&mut self, vehicle: Vehicle) -> (r: Option<Vehicle>) {
        if self.save_script.len() > 0 {
            let accept = self.save_script.remove(0);
            assert(self.save_script@ =~= old(self).save_script@.drop_first());
            if accept {
                Some(vehicle)
            } else {
                None
            }
        } else {
            None
        }
    }
}

/// An empty row set means absence, not an error: a fetch whose
/// execution succeeds with zero rows hands back `Ok(None)`.
pub proof fn lemma_empty_rows_is_absence(rs: QueryResult)
    requires
        rs.rows is None || rs.rows->0@.len() == 0,
    ensures
        interp_get(Ok(rs)) == Ok::<Option<Vehicle>, RepositoryError>(None),
{
}

} // verus!

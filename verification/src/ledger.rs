//! The trip status ledger: a deterministic state machine holding at most one
//! trip record and enforcing the forward-only checkpoint protocol
//! `Departed -> InTransit -> Delivered`.

use vstd::prelude::*;

verus! {

/// Checkpoint of a trip. The three statuses are totally ordered,
/// `Departed < InTransit < Delivered`, and a trip only ever moves forward.
#[derive(Clone, Copy, Debug, PartialEq, Eq, Structural)]
pub enum TripStatus {
    Departed,
    InTransit,
    Delivered,
}

impl TripStatus {
    /// Position of a status in the forward order.
    pub open spec fn position(self) -> int {
        match self {
            TripStatus::Departed => 0,
            TripStatus::InTransit => 1,
            TripStatus::Delivered => 2,
        }
    }
}

/// A failure returned by a ledger operation. Failures are always reported
/// to the caller as typed results; the ledger never panics and never
/// coerces a failure into a default status.
#[derive(Clone, Copy, Debug, PartialEq, Eq, Structural)]
pub enum LedgerError {
    /// A query or transition was attempted before any trip was created.
    NoActiveTrip,
    /// The supplied trip identifier differs from the stored one.
    IdentifierMismatch,
    /// The operation is not legal from the current status.
    InvalidTransition,
}

/// The single trip record tracked by the ledger.
pub struct Trip {
    pub trip_id: String,
    pub status: TripStatus,
}

/// Mathematical model of a trip record: the identifier as a sequence of
/// characters, and the status.
#[verifier::ext_equal]
pub ghost struct TripModel {
    pub id: Seq<char>,
    pub status: TripStatus,
}

impl View for Trip {
    type V = TripModel;

    open spec fn view(&self) -> TripModel {
        TripModel { id: self.trip_id@, status: self.status }
    }
}

/// The record stored after `create(t)`: a fresh record at `Departed`,
/// whatever was stored before.
pub open spec fn created(t: Seq<char>) -> Option<TripModel> {
    Some(TripModel { id: t, status: TripStatus::Departed })
}

/// One guarded transition on the model: what an advance operation expecting
/// status `from` and moving to status `to` does to the stored record `m`
/// when called with identifier `t`, and what it returns.
pub open spec fn advanced(
    m: Option<TripModel>,
    t: Seq<char>,
    from: TripStatus,
    to: TripStatus,
) -> (Option<TripModel>, Result<(), LedgerError>) {
    match m {
        None => (m, Err(LedgerError::NoActiveTrip)),
        Some(r) => {
            if r.id != t {
                (m, Err(LedgerError::IdentifierMismatch))
            } else if r.status != from {
                (m, Err(LedgerError::InvalidTransition))
            } else {
                (Some(TripModel { id: r.id, status: to }), Ok(()))
            }
        },
    }
}

/// Effect and result of `advance_to_midpoint` on the model.
pub open spec fn advanced_to_midpoint(m: Option<TripModel>, t: Seq<char>) -> (Option<
    TripModel,
>, Result<(), LedgerError>) {
    advanced(m, t, TripStatus::Departed, TripStatus::InTransit)
}

/// Effect and result of `advance_to_delivered` on the model.
pub open spec fn advanced_to_delivered(m: Option<TripModel>, t: Seq<char>) -> (Option<
    TripModel,
>, Result<(), LedgerError>) {
    advanced(m, t, TripStatus::InTransit, TripStatus::Delivered)
}

/// Result of `get_status` on the model. The query never changes the record.
pub open spec fn queried_status(m: Option<TripModel>, t: Seq<char>) -> Result<
    TripStatus,
    LedgerError,
> {
    match m {
        None => Err(LedgerError::NoActiveTrip),
        Some(r) => if r.id != t {
            Err(LedgerError::IdentifierMismatch)
        } else {
            Ok(r.status)
        },
    }
}

/// The ledger: owns the single storage slot, holding zero or one trip.
pub struct TripLedger {
    trip: Option<Trip>,
}

impl View for TripLedger {
    type V = Option<TripModel>;

    closed spec fn view(&self) -> Option<TripModel> {
        match self.trip {
            Some(t) => Some(t@),
            None => None,
        }
    }
}

impl TripLedger {
    /// An empty ledger: no trip has been created yet.
    pub fn new() -> (l: TripLedger)
        ensures
            l@ is None,
    {
        TripLedger { trip: None }
    }

    /// Store the record `{trip_id, Departed}`, overwriting any existing
    /// record. Creation has no precondition and never fails: re-submitting
    /// `create` is a deliberate idempotent overwrite.
    pub fn create(&mut self, trip_id: String)
        ensures
            final(self)@ == created(trip_id@),
    {
        self.trip = Some(Trip { trip_id, status: TripStatus::Departed });
    }

    /// Advance the trip from `Departed` to `InTransit`. Fails with
    /// `NoActiveTrip` on an empty ledger, `IdentifierMismatch` if `trip_id`
    /// differs from the stored identifier, and `InvalidTransition` unless
    /// the current status is exactly `Departed`. On failure the record is
    /// unchanged.
    pub fn advance_to_midpoint(&mut self, trip_id: &String) -> (r: Result<(), LedgerError>)
        ensures
            final(self)@ == advanced_to_midpoint(old(self)@, trip_id@).0,
            r == advanced_to_midpoint(old(self)@, trip_id@).1,
    {
        match &mut self.trip {
            None => Err(LedgerError::NoActiveTrip),
            Some(t) => {
                if t.trip_id != *trip_id {
                    Err(LedgerError::IdentifierMismatch)
                } else if t.status != TripStatus::Departed {
                    Err(LedgerError::InvalidTransition)
                } else {
                    t.status = TripStatus::InTransit;
                    Ok(())
                }
            },
        }
    }

    /// Advance the trip from `InTransit` to `Delivered`. The guards are the
    /// same as for `advance_to_midpoint`, with `InTransit` the only status
    /// the transition is legal from; `Delivered` is terminal.
    pub fn advance_to_delivered(&mut self, trip_id: &String) -> (r: Result<(), LedgerError>)
        ensures
            final(self)@ == advanced_to_delivered(old(self)@, trip_id@).0,
            r == advanced_to_delivered(old(self)@, trip_id@).1,
    {
        match &mut self.trip {
            None => Err(LedgerError::NoActiveTrip),
            Some(t) => {
                if t.trip_id != *trip_id {
                    Err(LedgerError::IdentifierMismatch)
                } else if t.status != TripStatus::InTransit {
                    Err(LedgerError::InvalidTransition)
                } else {
                    t.status = TripStatus::Delivered;
                    Ok(())
                }
            },
        }
    }

    /// Read the current status without side effect. Fails with
    /// `NoActiveTrip` on an empty ledger and `IdentifierMismatch` if
    /// `trip_id` differs from the stored identifier.
    pub fn get_status(&self, trip_id: &String) -> (r: Result<TripStatus, LedgerError>)
        ensures
            r == queried_status(self@, trip_id@),
    {
        match &self.trip {
            None => Err(LedgerError::NoActiveTrip),
            Some(t) => {
                if t.trip_id != *trip_id {
                    Err(LedgerError::IdentifierMismatch)
                } else {
                    Ok(t.status)
                }
            },
        }
    }
}

/// After `create(t)`, a query with the same identifier `t` returns
/// `Departed`.
pub proof fn law_create_then_query(t: Seq<char>)
    ensures
        queried_status(created(t), t) == Ok::<TripStatus, LedgerError>(TripStatus::Departed),
{
}

/// The full lifecycle: after `create(t)`, `advance_to_midpoint(t)` succeeds
/// and a query returns `InTransit`; continuing with
/// `advance_to_delivered(t)`, that succeeds too and a query returns
/// `Delivered`.
pub proof fn law_full_lifecycle(t: Seq<char>)
    ensures
        ({
            let (m1, r1) = advanced_to_midpoint(created(t), t);
            let (m2, r2) = advanced_to_delivered(m1, t);
            r1 == Ok::<(), LedgerError>(()) && queried_status(m1, t) == Ok::<
                TripStatus,
                LedgerError,
            >(TripStatus::InTransit) && r2 == Ok::<(), LedgerError>(()) && queried_status(m2, t)
                == Ok::<TripStatus, LedgerError>(TripStatus::Delivered)
        }),
{
}

/// Skipping the midpoint: `advance_to_delivered(t)` immediately after
/// `create(t)` fails with `InvalidTransition` and leaves the record at
/// `Departed`.
pub proof fn law_skip_midpoint_rejected(t: Seq<char>)
    ensures
        advanced_to_delivered(created(t), t) == (
            created(t),
            Err::<(), LedgerError>(LedgerError::InvalidTransition),
        ),
{
}

/// Identifier guard: whatever record `r` is stored, any operation called
/// with an identifier `t2` other than the stored one fails with
/// `IdentifierMismatch` and leaves the record unchanged.
pub proof fn law_identifier_mismatch(r: TripModel, t2: Seq<char>)
    requires
        r.id != t2,
    ensures
        advanced_to_midpoint(Some(r), t2) == (
            Some(r),
            Err::<(), LedgerError>(LedgerError::IdentifierMismatch),
        ),
        advanced_to_delivered(Some(r), t2) == (
            Some(r),
            Err::<(), LedgerError>(LedgerError::IdentifierMismatch),
        ),
        queried_status(Some(r), t2) == Err::<TripStatus, LedgerError>(
            LedgerError::IdentifierMismatch,
        ),
{
}

/// `advance_to_midpoint(t)` twice in a row after `create(t)`: the second
/// call fails with `InvalidTransition` and the status stays `InTransit`.
pub proof fn law_midpoint_twice(t: Seq<char>)
    ensures
        ({
            let (m1, r1) = advanced_to_midpoint(created(t), t);
            r1 == Ok::<(), LedgerError>(()) && advanced_to_midpoint(m1, t) == (
                m1,
                Err::<(), LedgerError>(LedgerError::InvalidTransition),
            ) && queried_status(m1, t) == Ok::<TripStatus, LedgerError>(TripStatus::InTransit)
        }),
{
}

/// Before any `create`, the ledger is empty and every query or transition
/// fails with `NoActiveTrip`.
pub proof fn law_no_active_trip(t: Seq<char>)
    ensures
        queried_status(None, t) == Err::<TripStatus, LedgerError>(LedgerError::NoActiveTrip),
        advanced_to_midpoint(None, t) == (
            None::<TripModel>,
            Err::<(), LedgerError>(LedgerError::NoActiveTrip),
        ),
        advanced_to_delivered(None, t) == (
            None::<TripModel>,
            Err::<(), LedgerError>(LedgerError::NoActiveTrip),
        ),
{
}

/// Forward-only protocol: a failed advance leaves the record unchanged, and
/// a successful advance keeps the stored identifier and moves the status
/// forward by exactly one position — it never rewinds and never skips.
pub proof fn law_forward_only(m: Option<TripModel>, t: Seq<char>)
    ensures
        ({
            let (m1, r1) = advanced_to_midpoint(m, t);
            (r1 is Err ==> m1 == m) && (r1 is Ok ==> m is Some && m1 is Some && m1->0.id
                == m->0.id && m1->0.status.position() == m->0.status.position() + 1)
        }),
        ({
            let (m2, r2) = advanced_to_delivered(m, t);
            (r2 is Err ==> m2 == m) && (r2 is Ok ==> m is Some && m2 is Some && m2->0.id
                == m->0.id && m2->0.status.position() == m->0.status.position() + 1)
        }),
{
}

} // verus!

//! The settings of a grid view and the validation of a changeset that asks
//! to alter them.
//!
//! A changeset may carry any combination of four sub-operations: insert a
//! filter, delete a filter, insert a group, delete a group. Their payloads
//! belong to the filter and grouping subsystems, which convert them into
//! parameters by routines of their own; validation hands each present
//! payload to its routine and either assembles all the results or stops at
//! the first failure.
use vstd::prelude::*;

use crate::identifier::{blank, is_blank};
use crate::layout::{to_persisted, GridLayout, GridLayoutPB, LayoutRevision};

verus! {

/// The setting options of a grid: the layouts it offers, the current one,
/// and the current filters and group configurations, which the filter and
/// grouping subsystems own.
#[derive(Debug, Clone, Default, PartialEq, Eq)]
pub struct GridSettingPB<F, G> {
    pub layouts: Vec<GridLayoutPB>,
    pub layout_type: GridLayout,
    pub filters: F,
    pub group_configurations: G,
}

/// A request to alter the settings of the view `grid_id`. Each of the four
/// sub-operations is optional on its own.
#[derive(Debug, Clone, Default)]
pub struct GridSettingChangesetPB<IF, DF, IG, DG> {
    pub grid_id: String,
    pub layout_type: GridLayout,
    pub insert_filter: Option<IF>,
    pub delete_filter: Option<DF>,
    pub insert_group: Option<IG>,
    pub delete_group: Option<DG>,
}

/// A validated changeset: the identifier, the persisted layout and the
/// converted parameters of each sub-operation that the request carried.
#[derive(Debug, Clone, PartialEq, Eq)]
pub struct GridSettingChangesetParams<IF, DF, IG, DG> {
    pub grid_id: String,
    pub layout_type: LayoutRevision,
    pub insert_filter: Option<IF>,
    pub delete_filter: Option<DF>,
    pub insert_group: Option<IG>,
    pub delete_group: Option<DG>,
}

/// Why a changeset was rejected. `E` is the error that the subsystems'
/// conversions raise; it is passed on as they gave it.
#[derive(Debug, Clone, PartialEq, Eq)]
pub enum ChangesetError<E> {
    InvalidIdentifier,
    InvalidInsertFilterPayload(E),
    InvalidDeleteFilterPayload(E),
    InvalidInsertGroupPayload(E),
    InvalidDeleteGroupPayload(E),
}

/// `out` is a result that converting the optional payload `input` by
/// `convert` may give: absent where the payload is, else parameters that
/// `convert` may return on success.
pub open spec fn converted_slot<A, P, E, C: FnOnce(A) -> Result<P, E>>(
    input: Option<A>,
    convert: C,
    out: Option<P>,
) -> bool {
    match input {
        None => out is None,
        Some(a) => out matches Some(p) && convert.ensures((a,), Ok(p)),
    }
}

/// Converting the optional payload `input` by `convert` may succeed: it is
/// absent, or `convert` may return parameters for it.
pub open spec fn slot_may_pass<A, P, E, C: FnOnce(A) -> Result<P, E>>(
    input: Option<A>,
    convert: C,
) -> bool {
    match input {
        None => true,
        Some(a) => exists|p: P| #[trigger] convert.ensures((a,), Ok::<P, E>(p)),
    }
}

/// The payload `input` is present and `convert` may reject it with `e`.
pub open spec fn slot_may_fail<A, P, E, C: FnOnce(A) -> Result<P, E>>(
    input: Option<A>,
    convert: C,
    e: E,
) -> bool {
    input matches Some(a) && convert.ensures((a,), Err::<P, E>(e))
}

/// `convert` may be called on the payload `input`, where there is one.
pub open spec fn slot_callable<A, P, E, C: FnOnce(A) -> Result<P, E>>(
    input: Option<A>,
    convert: C,
) -> bool {
    input matches Some(a) ==> convert.requires((a,))
}

/// Every result that `convert` may give on the payload `input`, where there
/// is one, is a success.
pub open spec fn slot_only_passes<A, P, E, C: FnOnce(A) -> Result<P, E>>(
    input: Option<A>,
    convert: C,
) -> bool {
    input matches Some(a) ==> forall|x: Result<P, E>| #[trigger]
        convert.ensures((a,), x) ==> x is Ok
}

/// The payload `input` is present and every result that `convert` may give
/// on it is a failure.
pub open spec fn slot_only_fails<A, P, E, C: FnOnce(A) -> Result<P, E>>(
    input: Option<A>,
    convert: C,
) -> bool {
    input matches Some(a) && forall|x: Result<P, E>| #[trigger]
        convert.ensures((a,), x) ==> x is Err
}

/// `convert` gives at most one result on the payload `input`, where there
/// is one.
pub open spec fn slot_deterministic<A, P, E, C: FnOnce(A) -> Result<P, E>>(
    input: Option<A>,
    convert: C,
) -> bool {
    input matches Some(a) ==> forall|x: Result<P, E>, y: Result<P, E>|
        #[trigger] convert.ensures((a,), x) && #[trigger] convert.ensures((a,), y) ==> x == y
}

impl<IF, DF, IG, DG> GridSettingChangesetPB<IF, DF, IG, DG> {
    /// `r` is an outcome of validating this changeset with the four
    /// conversions: the identifier is checked first, then the payloads in
    /// the order insert filter, delete filter, insert group, delete group,
    /// and the first failure is the outcome.
    pub open spec fn validates_to<IFP, DFP, IGP, DGP, E, C1, C2, C3, C4>(
        self,
        insert_filter: C1,
        delete_filter: C2,
        insert_group: C3,
        delete_group: C4,
        r: Result<GridSettingChangesetParams<IFP, DFP, IGP, DGP>, ChangesetError<E>>,
    ) -> bool where
        C1: FnOnce(IF) -> Result<IFP, E>,
        C2: FnOnce(DF) -> Result<DFP, E>,
        C3: FnOnce(IG) -> Result<IGP, E>,
        C4: FnOnce(DG) -> Result<DGP, E>,
     {
        match r {
            Ok(p) => {
                &&& !is_blank(self.grid_id@)
                &&& p.grid_id == self.grid_id
                &&& p.layout_type == to_persisted(self.layout_type)
                &&& converted_slot(self.insert_filter, insert_filter, p.insert_filter)
                &&& converted_slot(self.delete_filter, delete_filter, p.delete_filter)
                &&& converted_slot(self.insert_group, insert_group, p.insert_group)
                &&& converted_slot(self.delete_group, delete_group, p.delete_group)
            },
            Err(ChangesetError::InvalidIdentifier) => is_blank(self.grid_id@),
            Err(ChangesetError::InvalidInsertFilterPayload(e)) => {
                &&& !is_blank(self.grid_id@)
                &&& slot_may_fail(self.insert_filter, insert_filter, e)
            },
            Err(ChangesetError::InvalidDeleteFilterPayload(e)) => {
                &&& !is_blank(self.grid_id@)
                &&& slot_may_pass(self.insert_filter, insert_filter)
                &&& slot_may_fail(self.delete_filter, delete_filter, e)
            },
            Err(ChangesetError::InvalidInsertGroupPayload(e)) => {
                &&& !is_blank(self.grid_id@)
                &&& slot_may_pass(self.insert_filter, insert_filter)
                &&& slot_may_pass(self.delete_filter, delete_filter)
                &&& slot_may_fail(self.insert_group, insert_group, e)
            },
            Err(ChangesetError::InvalidDeleteGroupPayload(e)) => {
                &&& !is_blank(self.grid_id@)
                &&& slot_may_pass(self.insert_filter, insert_filter)
                &&& slot_may_pass(self.delete_filter, delete_filter)
                &&& slot_may_pass(self.insert_group, insert_group)
                &&& slot_may_fail(self.delete_group, delete_group, e)
            },
        }
    }

    /// Validates this changeset, converting each present payload by the
    /// subsystem routine given for it. Nothing is converted once a step has
    /// failed, and no partial result is returned.
    pub fn try_into_params<IFP, DFP, IGP, DGP, E, C1, C2, C3, C4>(
        self,
        insert_filter: C1,
        delete_filter: C2,
        insert_group: C3,
        delete_group: C4,
    ) -> (r: Result<GridSettingChangesetParams<IFP, DFP, IGP, DGP>, ChangesetError<E>>) where
        C1: FnOnce(IF) -> Result<IFP, E>,
        C2: FnOnce(DF) -> Result<DFP, E>,
        C3: FnOnce(IG) -> Result<IGP, E>,
        C4: FnOnce(DG) -> Result<DGP, E>,

        requires
            slot_callable(self.insert_filter, insert_filter),
            slot_callable(self.delete_filter, delete_filter),
            slot_callable(self.insert_group, insert_group),
            slot_callable(self.delete_group, delete_group),
        ensures
            self.validates_to(insert_filter, delete_filter, insert_group, delete_group, r),
            is_blank(self.grid_id@) ==> r == Err::<
                GridSettingChangesetParams<IFP, DFP, IGP, DGP>,
                ChangesetError<E>,
            >(ChangesetError::InvalidIdentifier),
            !is_blank(self.grid_id@) && self.insert_filter is None && self.delete_filter is None
                && self.insert_group is None && self.delete_group is None ==> r == Ok::<
                GridSettingChangesetParams<IFP, DFP, IGP, DGP>,
                ChangesetError<E>,
            >(
                (GridSettingChangesetParams {
                    grid_id: self.grid_id,
                    layout_type: to_persisted(self.layout_type),
                    insert_filter: None,
                    delete_filter: None,
                    insert_group: None,
                    delete_group: None,
                }),
            ),
    {
        let GridSettingChangesetPB {
            grid_id,
            layout_type,
            insert_filter: insert_filter_payload,
            delete_filter: delete_filter_payload,
            insert_group: insert_group_payload,
            delete_group: delete_group_payload,
        } = self;
        if blank(grid_id.as_str()) {
            return Err(ChangesetError::InvalidIdentifier);
        }
        let insert_filter_params = match insert_filter_payload {
            None => None,
            Some(payload) => match insert_filter(payload) {
                Ok(params) => Some(params),
                Err(e) => {
                    return Err(ChangesetError::InvalidInsertFilterPayload(e));
                },
            },
        };
        let delete_filter_params = match delete_filter_payload {
            None => None,
            Some(payload) => match delete_filter(payload) {
                Ok(params) => Some(params),
                Err(e) => {
                    return Err(ChangesetError::InvalidDeleteFilterPayload(e));
                },
            },
        };
        let insert_group_params = match insert_group_payload {
            None => None,
            Some(payload) => match insert_group(payload) {
                Ok(params) => Some(params),
                Err(e) => {
                    return Err(ChangesetError::InvalidInsertGroupPayload(e));
                },
            },
        };
        let delete_group_params = match delete_group_payload {
            None => None,
            Some(payload) => match delete_group(payload) {
                Ok(params) => Some(params),
                Err(e) => {
                    return Err(ChangesetError::InvalidDeleteGroupPayload(e));
                },
            },
        };
        Ok(GridSettingChangesetParams {
            grid_id,
            layout_type: LayoutRevision::from(layout_type),
            insert_filter: insert_filter_params,
            delete_filter: delete_filter_params,
            insert_group: insert_group_params,
            delete_group: delete_group_params,
        })
    }
}

/// A changeset with a valid identifier that inserts a filter, and does
/// nothing else, is accepted where the filter payload converts: the result
/// inserts a filter, carries no other sub-operation and changes the filters.
pub proof fn lemma_insert_filter_only<IF, DF, IG, DG, IFP, DFP, IGP, DGP, E, C1, C2, C3, C4>(
    cs: GridSettingChangesetPB<IF, DF, IG, DG>,
    insert_filter: C1,
    delete_filter: C2,
    insert_group: C3,
    delete_group: C4,
    r: Result<GridSettingChangesetParams<IFP, DFP, IGP, DGP>, ChangesetError<E>>,
) where
    C1: FnOnce(IF) -> Result<IFP, E>,
    C2: FnOnce(DF) -> Result<DFP, E>,
    C3: FnOnce(IG) -> Result<IGP, E>,
    C4: FnOnce(DG) -> Result<DGP, E>,

    requires
        cs.validates_to(insert_filter, delete_filter, insert_group, delete_group, r),
        !is_blank(cs.grid_id@),
        cs.insert_filter is Some,
        cs.delete_filter is None,
        cs.insert_group is None,
        cs.delete_group is None,
        slot_only_passes(cs.insert_filter, insert_filter),
    ensures
        r matches Ok(p) && {
            &&& p.insert_filter is Some
            &&& p.delete_filter is None
            &&& p.insert_group is None
            &&& p.delete_group is None
            &&& p.filter_changed()
        },
{
}

/// A changeset whose group-delete payload the grouping subsystem rejects is
/// rejected with that subsystem's error, even where the identifier and every
/// other payload are valid.
pub proof fn lemma_delete_group_failure_rejects<
    IF,
    DF,
    IG,
    DG,
    IFP,
    DFP,
    IGP,
    DGP,
    E,
    C1,
    C2,
    C3,
    C4,
>(
    cs: GridSettingChangesetPB<IF, DF, IG, DG>,
    insert_filter: C1,
    delete_filter: C2,
    insert_group: C3,
    delete_group: C4,
    r: Result<GridSettingChangesetParams<IFP, DFP, IGP, DGP>, ChangesetError<E>>,
) where
    C1: FnOnce(IF) -> Result<IFP, E>,
    C2: FnOnce(DF) -> Result<DFP, E>,
    C3: FnOnce(IG) -> Result<IGP, E>,
    C4: FnOnce(DG) -> Result<DGP, E>,

    requires
        cs.validates_to(insert_filter, delete_filter, insert_group, delete_group, r),
        !is_blank(cs.grid_id@),
        slot_only_passes(cs.insert_filter, insert_filter),
        slot_only_passes(cs.delete_filter, delete_filter),
        slot_only_passes(cs.insert_group, insert_group),
        slot_only_fails(cs.delete_group, delete_group),
    ensures
        r matches Err(ChangesetError::InvalidDeleteGroupPayload(e)) && slot_may_fail(
            cs.delete_group,
            delete_group,
            e,
        ),
{
}

/// No partial result: where any present payload can only be rejected by its
/// subsystem, the whole changeset is rejected.
pub proof fn lemma_payload_failure_rejects<IF, DF, IG, DG, IFP, DFP, IGP, DGP, E, C1, C2, C3, C4>(
    cs: GridSettingChangesetPB<IF, DF, IG, DG>,
    insert_filter: C1,
    delete_filter: C2,
    insert_group: C3,
    delete_group: C4,
    r: Result<GridSettingChangesetParams<IFP, DFP, IGP, DGP>, ChangesetError<E>>,
) where
    C1: FnOnce(IF) -> Result<IFP, E>,
    C2: FnOnce(DF) -> Result<DFP, E>,
    C3: FnOnce(IG) -> Result<IGP, E>,
    C4: FnOnce(DG) -> Result<DGP, E>,

    requires
        cs.validates_to(insert_filter, delete_filter, insert_group, delete_group, r),
        slot_only_fails(cs.insert_filter, insert_filter) || slot_only_fails(
            cs.delete_filter,
            delete_filter,
        ) || slot_only_fails(cs.insert_group, insert_group) || slot_only_fails(
            cs.delete_group,
            delete_group,
        ),
    ensures
        r is Err,
{
}

/// Validation keeps no state of its own: two validations of one changeset,
/// with conversions that give one result per payload, have the same outcome.
pub proof fn lemma_validation_deterministic<
    IF,
    DF,
    IG,
    DG,
    IFP,
    DFP,
    IGP,
    DGP,
    E,
    C1,
    C2,
    C3,
    C4,
>(
    cs: GridSettingChangesetPB<IF, DF, IG, DG>,
    insert_filter: C1,
    delete_filter: C2,
    insert_group: C3,
    delete_group: C4,
    r1: Result<GridSettingChangesetParams<IFP, DFP, IGP, DGP>, ChangesetError<E>>,
    r2: Result<GridSettingChangesetParams<IFP, DFP, IGP, DGP>, ChangesetError<E>>,
) where
    C1: FnOnce(IF) -> Result<IFP, E>,
    C2: FnOnce(DF) -> Result<DFP, E>,
    C3: FnOnce(IG) -> Result<IGP, E>,
    C4: FnOnce(DG) -> Result<DGP, E>,

    requires
        cs.validates_to(insert_filter, delete_filter, insert_group, delete_group, r1),
        cs.validates_to(insert_filter, delete_filter, insert_group, delete_group, r2),
        slot_deterministic(cs.insert_filter, insert_filter),
        slot_deterministic(cs.delete_filter, delete_filter),
        slot_deterministic(cs.insert_group, insert_group),
        slot_deterministic(cs.delete_group, delete_group),
    ensures
        r1 == r2,
{
}

impl<IF, DF, IG, DG> GridSettingChangesetParams<IF, DF, IG, DG> {
    /// The filters change: a filter is inserted or deleted.
    pub open spec fn filter_changed(&self) -> bool {
        self.insert_filter is Some || self.delete_filter is Some
    }

    /// Whether this changeset inserts or deletes a filter.
    pub fn is_filter_changed(&self) -> (r: bool)
        ensures
            r == self.filter_changed(),
    {
        self.insert_filter.is_some() || self.delete_filter.is_some()
    }
}

} // verus!

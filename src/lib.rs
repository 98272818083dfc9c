//! Display settings of a grid view: the layout kinds and their persisted
//! counterpart, and the validation of a settings changeset.
pub mod identifier;
pub mod layout;
pub mod setting;

pub use layout::{GridLayout, GridLayoutPB, LayoutRevision};
pub use setting::{
    ChangesetError, GridSettingChangesetPB, GridSettingChangesetParams, GridSettingPB,
};

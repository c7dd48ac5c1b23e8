//! Build-time derivation for the HiSilicon MIPI/LVDS/SLVS combo device:
//! control-request codes, the per-release constant table, identifier
//! normalisation and the decisions of the SDK search.

pub mod ioctl;
pub mod locate;
pub mod names;
pub mod table;
mod text;

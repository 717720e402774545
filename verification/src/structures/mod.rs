pub mod anchor_enum;
pub mod break_point;
pub mod chr_anchor;
pub mod chr_anchor_enum;
pub mod cigar;
pub mod me_anchor;
pub mod me_chimeric_pair;
pub mod me_chimeric_read;
pub mod me_library;
pub mod orientation_enum;
pub mod raw_values;
pub mod sv_chimeric_pair;
pub mod sv_chimeric_read;
pub mod sv_type;

pub mod counter;
pub mod decimal;
pub mod flag_interpretor;
pub mod identificator;
pub mod position_binner;
pub mod sequences;
pub mod thresholder;

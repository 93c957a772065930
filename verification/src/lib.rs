//! Núcleo verificado de `tamara`, una sonda de disponibilidad por ICMP.
pub mod args;
pub mod backend;
pub mod disponibilidad;
pub mod errors;
pub mod icmp;
pub mod informe;
pub mod ping;
pub mod tipos;
pub mod utils;

//! Los datos con los que trabaja la sonda: configuración, objetivos y
//! resultados.
pub mod backend;
pub mod configuracion;
pub mod direccion;
pub mod icmp;

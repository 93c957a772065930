//! Lectura de los resultados de las comprobaciones de disponibilidad.
pub mod db;

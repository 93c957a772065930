//! Construcción de solicitudes de eco ICMP, su suma de verificación y el
//! filtro de respuestas.
pub mod destino;
pub mod errors;
pub mod icmp;
pub mod packet;
pub mod protocol;

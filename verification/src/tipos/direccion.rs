use vstd::prelude::*;

verus! {

/// Una dirección IP por sus octetos (IPv4) o sus segmentos de 16 bits (IPv6).
#[derive(Clone, Copy, Debug)]
pub enum DireccionIp {
    V4([u8; 4]),
    V6([u16; 8]),
}

} // verus!

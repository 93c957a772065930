use vstd::prelude::*;

use crate::tipos::direccion::DireccionIp;

verus! {

/// El resultado del sondeo ICMP de un objetivo. La duración del viaje de ida
/// y vuelta se guarda en microsegundos.
#[derive(Clone, Copy, Debug)]
pub struct ResultadoIcmp {
    pub id: i32,
    pub ttl: i16,
    pub host: DireccionIp,
    pub arriba: bool,
    pub duracion_us: u128,
}

/// El TTL que trae la respuesta: el byte 8 de la cabecera IPv4 recibida, o
/// 0 si la respuesta es más corta.
pub open spec fn ttl_respuesta(datos: Seq<u8>) -> i16 {
    if datos.len() > 8 {
        datos[8] as i16
    } else {
        0
    }
}

/// Lee el TTL de una respuesta recibida.
pub fn leer_ttl(datos: &[u8]) -> (r: i16)
    ensures
        r == ttl_respuesta(datos@),
        datos@.len() > 8 ==> r == datos@[8],
        datos@.len() <= 8 ==> r == 0,
{
    if datos.len() > 8 {
        datos[8] as i16
    } else {
        0
    }
}

impl ResultadoIcmp {
    /// El resultado de un sondeo que recibió `datos` tras `duracion_us`
    /// microsegundos.
    pub fn new(id: i32, host: DireccionIp, arriba: bool, duracion_us: u128, datos: &[u8]) -> (r: ResultadoIcmp)
        ensures
            r.id == id,
            r.host == host,
            r.arriba == arriba,
            r.duracion_us == duracion_us,
            r.ttl == ttl_respuesta(datos@),
            datos@.len() > 8 ==> r.ttl == datos@[8],
            datos@.len() <= 8 ==> r.ttl == 0,
    {
        let ttl = leer_ttl(datos);
        return ResultadoIcmp { id, host, duracion_us, arriba, ttl };
    }

    /// El resultado de un objetivo que no respondió.
    pub fn new_abajo(id: i32, host: DireccionIp) -> (r: ResultadoIcmp)
        ensures
            r.id == id,
            r.host == host,
            !r.arriba,
            r.duracion_us == 0,
            r.ttl == 0,
    {
        return ResultadoIcmp { id, host, duracion_us: 0, arriba: false, ttl: 0 };
    }
}

/// El TTL registrado es el byte 8 de la respuesta leído sin signo (0 a
/// 255), o 0 si la respuesta no llega a ese byte.
pub proof fn ley_ttl_es_byte_ocho(datos: Seq<u8>)
    ensures
        datos.len() > 8 ==> ttl_respuesta(datos) == datos[8],
        datos.len() > 8 ==> 0 <= ttl_respuesta(datos) <= 255,
        datos.len() <= 8 ==> ttl_respuesta(datos) == 0,
{
}

} // verus!

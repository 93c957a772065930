use vstd::prelude::*;

use crate::icmp::errors::PaqueteCreacionError;
use crate::icmp::icmp::{programa_filtro, FiltroSocket};
use crate::icmp::packet::{lema_constantes_icmpv4, paquete_eco, EchoRequest, IcmpV4};
use crate::tipos::direccion::DireccionIp;

verus! {

/// El identificador con el que la sonda marca sus solicitudes de eco.
pub const IDENTIFICADOR_SONDA: u16 = 3001;

/// La carga de las solicitudes de eco de la sonda: `"A Tamara"`.
pub open spec fn carga_sondeo() -> Seq<u8> {
    seq![65u8, 32, 84, 97, 109, 97, 114, 97]
}

/// La solicitud de eco ICMPv4 que envía la sonda con número de secuencia
/// `secuencia`.
pub fn paquete_sondeo(secuencia: u16) -> (r: Result<[u8; 16], PaqueteCreacionError>)
    ensures
        match r {
            Ok(b) => b@ == paquete_eco(8, 0, IDENTIFICADOR_SONDA, secuencia, carga_sondeo()),
            Err(_) => false,
        },
{
    let carga: [u8; 8] = [65, 32, 84, 97, 109, 97, 114, 97];
    assert(carga@ =~= carga_sondeo());
    let paquete = EchoRequest::new(carga.as_slice());
    assert(paquete.carga@ == carga_sondeo());
    proof {
        lema_constantes_icmpv4();
    }
    paquete.encode::<IcmpV4>(IDENTIFICADOR_SONDA, secuencia)
}

/// El filtro de respuestas para `host`, que ha de ser IPv4.
pub fn crear_filtros(host: DireccionIp) -> (r: Vec<FiltroSocket>)
    requires
        host is V4,
    ensures
        r@ == programa_filtro(host->V4_0@),
{
    match host {
        DireccionIp::V4(a) => crate::icmp::icmp::crear_filtros(a),
        DireccionIp::V6(_) => {
            assert(false);
            Vec::new()
        },
    }
}

} // verus!

use vstd::prelude::*;

use crate::icmp::icmp::Resultado;
use crate::utils::{texto_ipv4, texto_ipv4_spec};

verus! {

/// La carga de las solicitudes de un objetivo:
/// `"_ A Tamara, por salvar mi vida _"`.
pub open spec fn carga_objetivo() -> Seq<u8> {
    seq![
        95u8, 32, 65, 32, 84, 97, 109, 97, 114, 97, 44, 32, 112, 111, 114, 32, 115, 97, 108, 118,
        97, 114, 32, 109, 105, 32, 118, 105, 100, 97, 32, 95,
    ]
}

/// Un host a sondear con sus parámetros de envío; el tiempo de espera va en
/// milisegundos.
#[derive(Clone, Copy, Debug)]
pub struct Objetivo {
    pub addr: [u8; 4],
    pub timeout_ms: u64,
    pub ttl: u32,
    pub payload: [u8; 32],
}

/// Lo que toca hacer en el sondeo de un objetivo.
#[derive(Clone, Debug)]
pub enum PasoCheck {
    /// Enviar un eco con este número de secuencia.
    Ping { secuencia: u16 },
    /// Terminar con este resultado.
    Fin(Resultado),
}

/// El resultado de un objetivo que no respondió a ningún intento.
pub open spec fn resultado_abajo(r: Resultado, addr: Seq<u8>) -> bool {
    &&& r.host@ == texto_ipv4_spec(addr)
    &&& r.duracion_us == 0
    &&& !r.arriba
    &&& r.ttl == 0
}

impl Objetivo {
    /// Un objetivo para la dirección `destino` (ya interpretada; `None` si
    /// el texto no era una dirección IPv4, en cuyo caso se usa 127.0.0.1)
    /// con `timeout` milisegundos de espera, TTL 254 y la carga fija.
    pub fn new(destino: Option<[u8; 4]>, timeout: i64) -> (r: Objetivo)
        ensures
            r.addr@ == (match destino {
                Some(a) => a@,
                None => seq![127u8, 0, 0, 1],
            }),
            r.timeout_ms == timeout as u64,
            r.ttl == 254,
            r.payload@ == carga_objetivo(),
    {
        let addr: [u8; 4] = match destino {
            Some(e) => e,
            None => [127, 0, 0, 1],
        };
        let timeout = timeout as u64;
        let ttl: u32 = 254;
        let payload: [u8; 32] = [
            95, 32, 65, 32, 84, 97, 109, 97, 114, 97, 44, 32, 112, 111, 114, 32, 115, 97, 108, 118,
            97, 114, 32, 109, 105, 32, 118, 105, 100, 97, 32, 95,
        ];
        assert(payload@ =~= carga_objetivo());
        assert(match destino { Some(a) => a@, None => seq![127u8, 0, 0, 1] } =~= addr@);
        return Objetivo { addr, timeout_ms: timeout, ttl, payload };
    }

    /// El siguiente paso del sondeo tras `realizados` intentos fallidos de
    /// `intentos`, con el resultado del último intento (`None` si falló o
    /// aún no hubo ninguno): el primer éxito termina el sondeo; si quedan
    /// intentos se envía el siguiente eco, con secuencia `realizados`; si no,
    /// el objetivo queda abajo.
    pub fn check(&self, intentos: u16, realizados: u16, ultimo: Option<Resultado>) -> (r: PasoCheck)
        ensures
            match ultimo {
                Some(res) => r == PasoCheck::Fin(res),
                None => if realizados < intentos {
                    r == PasoCheck::Ping { secuencia: realizados }
                } else {
                    r matches PasoCheck::Fin(res) && resultado_abajo(res, self.addr@)
                },
            },
    {
        match ultimo {
            Some(res) => PasoCheck::Fin(res),
            None => {
                if realizados < intentos {
                    PasoCheck::Ping { secuencia: realizados }
                } else {
                    let destino = texto_ipv4(self.addr);
                    let resultado = Resultado { host: destino, duracion_us: 0, arriba: false, ttl: 0 };
                    PasoCheck::Fin(resultado)
                }
            },
        }
    }
}

} // verus!

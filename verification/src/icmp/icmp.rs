use vstd::prelude::*;

use crate::tipos::icmp::{leer_ttl, ttl_respuesta};
use crate::utils::{texto_ipv4, texto_ipv4_spec};

verus! {

/// Una instrucción de filtro de paquetes (BPF clásico), campo a campo como
/// la espera el núcleo.
#[derive(Clone, Copy, Debug, PartialEq, Eq)]
pub struct FiltroSocket {
    pub code: u16,
    pub jt: u8,
    pub jf: u8,
    pub k: u32,
}

/// Una dirección IPv4 leída como entero de 32 bits en orden de red.
pub open spec fn ipv4_a_u32(a: Seq<u8>) -> nat {
    a[0] as nat * 0x100_0000 + a[1] as nat * 0x1_0000 + a[2] as nat * 0x100 + a[3] as nat
}

/// El programa de filtro que deja pasar solo las respuestas ICMP que vienen
/// de `a`: carga el byte de protocolo (offset 9), salta al rechazo si no es
/// ICMP (1), carga la dirección de origen (offset 12), la compara con `a` y
/// acepta (262144 bytes) o rechaza (0).
pub open spec fn programa_filtro(a: Seq<u8>) -> Seq<FiltroSocket> {
    seq![
        FiltroSocket { code: 48, jt: 0, jf: 0, k: 9 },
        FiltroSocket { code: 21, jt: 0, jf: 3, k: 1 },
        FiltroSocket { code: 32, jt: 0, jf: 0, k: 12 },
        FiltroSocket { code: 21, jt: 0, jf: 1, k: ipv4_a_u32(a) as u32 },
        FiltroSocket { code: 6, jt: 0, jf: 0, k: 262144 },
        FiltroSocket { code: 6, jt: 0, jf: 0, k: 0 },
    ]
}

/// Construye el filtro que deja pasar solo las respuestas ICMP de `addr`.
pub fn crear_filtros(addr: [u8; 4]) -> (r: Vec<FiltroSocket>)
    ensures
        r@ == programa_filtro(addr@),
{
    let representacion: u32 = (addr[0] as u32) * 0x100_0000 + (addr[1] as u32) * 0x1_0000
        + (addr[2] as u32) * 0x100 + addr[3] as u32;
    let filtros = vec![
        FiltroSocket { code: 48, jt: 0, jf: 0, k: 9 },
        FiltroSocket { code: 21, jt: 0, jf: 3, k: 1 },
        FiltroSocket { code: 32, jt: 0, jf: 0, k: 12 },
        FiltroSocket { code: 21, jt: 0, jf: 1, k: representacion },
        FiltroSocket { code: 6, jt: 0, jf: 0, k: 262144 },
        FiltroSocket { code: 6, jt: 0, jf: 0, k: 0 },
    ];
    assert(filtros@ =~= programa_filtro(addr@));
    return filtros;
}

/// El resultado de sondear un host; la duración va en microsegundos.
#[derive(Clone, Debug)]
pub struct Resultado {
    pub host: String,
    pub arriba: bool,
    pub duracion_us: u128,
    pub ttl: i16,
}

impl Resultado {
    /// El resultado de un sondeo a `addr` que recibió `datos` tras
    /// `duracion_us` microsegundos.
    pub fn new(addr: [u8; 4], arriba: bool, duracion_us: u128, datos: &[u8]) -> (r: Resultado)
        ensures
            r.host@ == texto_ipv4_spec(addr@),
            r.arriba == arriba,
            r.duracion_us == duracion_us,
            r.ttl == ttl_respuesta(datos@),
            datos@.len() > 8 ==> r.ttl == datos@[8],
            datos@.len() <= 8 ==> r.ttl == 0,
    {
        let ttl = leer_ttl(datos);
        return Resultado { host: texto_ipv4(addr), duracion_us, arriba, ttl };
    }
}


/// La palabra de 32 bits en orden de red que empieza en el byte `k` de `p`.
pub open spec fn palabra32(p: Seq<u8>, k: int) -> nat {
    p[k] as nat * 0x100_0000 + p[k + 1] as nat * 0x1_0000 + p[k + 2] as nat * 0x100 + p[k + 3] as nat
}

/// Lo que devuelve un filtro de paquetes clásico al recorrer `paquete` desde
/// la instrucción `pc` con el acumulador en `a`, para las instrucciones que
/// usa la sonda: cargar un byte (48) o una palabra (32) de posición fija,
/// saltar si el acumulador es igual a una constante (21) y devolver una
/// constante (6). Una carga fuera del paquete, una instrucción desconocida o
/// salirse del programa devuelven 0 (se descarta el paquete). `pasos` acota
/// cuántas instrucciones se ejecutan.
pub open spec fn ejecutar_filtro(prog: Seq<FiltroSocket>, paquete: Seq<u8>, pc: nat, a: nat, pasos: nat) -> nat
    decreases pasos,
{
    if pasos == 0 || pc >= prog.len() {
        0
    } else {
        let ins = prog[pc as int];
        if ins.code == 48 {
            if (ins.k as int) < paquete.len() {
                ejecutar_filtro(prog, paquete, pc + 1, paquete[ins.k as int] as nat, (pasos - 1) as nat)
            } else {
                0
            }
        } else if ins.code == 32 {
            if ins.k as int + 4 <= paquete.len() {
                ejecutar_filtro(prog, paquete, pc + 1, palabra32(paquete, ins.k as int), (pasos - 1) as nat)
            } else {
                0
            }
        } else if ins.code == 21 {
            let salto: nat = if a == ins.k as nat { ins.jt as nat } else { ins.jf as nat };
            ejecutar_filtro(prog, paquete, pc + 1 + salto, a, (pasos - 1) as nat)
        } else if ins.code == 6 {
            ins.k as nat
        } else {
            0
        }
    }
}

/// Si `paquete` (una cabecera IPv4 en adelante) es ICMP y viene de `a`.
pub open spec fn es_icmp_de(paquete: Seq<u8>, a: Seq<u8>) -> bool {
    &&& paquete.len() >= 16
    &&& paquete[9] == 1
    &&& paquete.subrange(12, 16) == a
}

proof fn lema_palabra32_inyectiva(p: Seq<u8>, a: Seq<u8>)
    requires
        p.len() >= 16,
        a.len() == 4,
    ensures
        palabra32(p, 12) == ipv4_a_u32(a) <==> p.subrange(12, 16) == a,
{
    let (p0, p1, p2, p3) = (p[12] as int, p[13] as int, p[14] as int, p[15] as int);
    let (a0, a1, a2, a3) = (a[0] as int, a[1] as int, a[2] as int, a[3] as int);
    if palabra32(p, 12) == ipv4_a_u32(a) {
        assert(p0 == a0 && p1 == a1 && p2 == a2 && p3 == a3) by (nonlinear_arith)
            requires
                0 <= p0 < 256, 0 <= p1 < 256, 0 <= p2 < 256, 0 <= p3 < 256,
                0 <= a0 < 256, 0 <= a1 < 256, 0 <= a2 < 256, 0 <= a3 < 256,
                p0 * 0x100_0000 + p1 * 0x1_0000 + p2 * 0x100 + p3
                    == a0 * 0x100_0000 + a1 * 0x1_0000 + a2 * 0x100 + a3;
        assert(p.subrange(12, 16) =~= a);
    }
    if p.subrange(12, 16) == a {
        assert(p.subrange(12, 16)[0] == a[0]);
        assert(p.subrange(12, 16)[1] == a[1]);
        assert(p.subrange(12, 16)[2] == a[2]);
        assert(p.subrange(12, 16)[3] == a[3]);
    }
}

/// El filtro de la sonda acepta un paquete entero (262144 bytes de
/// captura) si y solo si es una respuesta ICMP que viene de `a`, y lo
/// descarta (0) en otro caso.
pub proof fn ley_filtro_acepta_solo_icmp_de(a: Seq<u8>, paquete: Seq<u8>)
    requires
        a.len() == 4,
    ensures
        ejecutar_filtro(programa_filtro(a), paquete, 0, 0, 6)
            == (if es_icmp_de(paquete, a) { 262144nat } else { 0nat }),
{
    let prog = programa_filtro(a);
    reveal_with_fuel(ejecutar_filtro, 7);
    assert(ipv4_a_u32(a) < 0x1_0000_0000);
    if paquete.len() >= 16 {
        lema_palabra32_inyectiva(paquete, a);
    }
}

} // verus!

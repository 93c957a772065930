use vstd::prelude::*;

use crate::icmp::errors::PaqueteCreacionError;

verus! {

/// Marca de la familia de protocolo para la que se construye un eco.
pub struct IcmpV4;

/// Los tipos y códigos de mensaje de eco de una familia ICMP.
pub trait Proto {
    const ECHO_REQUEST_TYPE: u8;
    const ECHO_REQUEST_CODE: u8;
    const ECHO_REPLY_TYPE: u8;
    const ECHO_REPLY_CODE: u8;
}

impl Proto for IcmpV4 {
    const ECHO_REQUEST_TYPE: u8 = 8;
    const ECHO_REQUEST_CODE: u8 = 0;
    const ECHO_REPLY_TYPE: u8 = 0;
    const ECHO_REPLY_CODE: u8 = 0;
}

/// Los valores de los tipos y códigos de eco de ICMPv4.
pub proof fn lema_constantes_icmpv4()
    ensures
        IcmpV4::ECHO_REQUEST_TYPE == 8,
        IcmpV4::ECHO_REQUEST_CODE == 0,
        IcmpV4::ECHO_REPLY_TYPE == 0,
        IcmpV4::ECHO_REPLY_CODE == 0,
{
}

/// Una solicitud de eco con su carga útil.
#[derive(Debug)]
pub struct EchoRequest<'a> {
    pub identificador: u16,
    pub numero_secuncia: u16,
    pub carga: &'a [u8],
}

/// Cuántos bytes de la carga caben en el mensaje.
pub open spec fn bytes_de_carga(carga: Seq<u8>) -> int {
    if carga.len() < 8 { carga.len() as int } else { 8 }
}

/// El mensaje de eco con el campo de suma de verificación (bytes 2 y 3) a
/// cero: tipo, código, identificador y secuencia en orden de red, y la carga
/// truncada a lo que cabe, rellenada con ceros.
pub open spec fn mensaje_sin_checksum(tipo: u8, codigo: u8, id: u16, secuencia: u16, carga: Seq<u8>) -> Seq<u8> {
    Seq::new(
        16,
        |i: int|
            if i == 0 {
                tipo
            } else if i == 1 {
                codigo
            } else if i == 4 {
                (id / 256) as u8
            } else if i == 5 {
                (id % 256) as u8
            } else if i == 6 {
                (secuencia / 256) as u8
            } else if i == 7 {
                (secuencia % 256) as u8
            } else if 8 <= i < 8 + bytes_de_carga(carga) {
                carga[i - 8]
            } else {
                0u8
            },
    )
}

/// `m` con la suma de verificación de `m` escrita en los bytes 2 y 3, en
/// orden de red.
pub open spec fn con_checksum(m: Seq<u8>) -> Seq<u8> {
    let c = checksum(m);
    m.update(2, (c / 256) as u8).update(3, (c % 256) as u8)
}

/// El mensaje de eco completo tal como se envía.
pub open spec fn paquete_eco(tipo: u8, codigo: u8, id: u16, secuencia: u16, carga: Seq<u8>) -> Seq<u8> {
    con_checksum(mensaje_sin_checksum(tipo, codigo, id, secuencia, carga))
}

impl<'a> EchoRequest<'a> {
    /// Una solicitud con identificador y secuencia 1 sobre `carga`.
    pub fn new(carga: &[u8]) -> (r: EchoRequest)
        ensures
            r.identificador == 1,
            r.numero_secuncia == 1,
            r.carga@ == carga@,
    {
        return EchoRequest { identificador: 1, numero_secuncia: 1, carga };
    }

    /// Codifica la solicitud como mensaje de eco de la familia `P` con el
    /// identificador y la secuencia dados, con su suma de verificación.
    /// Los campos `identificador` y `numero_secuncia` de la solicitud no se
    /// usan; de la carga entran los primeros 8 bytes.
    pub fn encode<P: Proto>(&self, identificador: u16, secuencia: u16) -> (r: Result<[u8; 16], PaqueteCreacionError>)
        ensures
            match r {
                Ok(b) => b@ == paquete_eco(P::ECHO_REQUEST_TYPE, P::ECHO_REQUEST_CODE, identificador, secuencia, self.carga@),
                Err(_) => false,
            },
            r matches Ok(b) ==> forall|i: int|
                0 <= i < 8 ==> #[trigger] b@[8 + i] == (if i < self.carga@.len() { self.carga@[i] } else { 0u8 }),
    {
        let ghost m = mensaje_sin_checksum(P::ECHO_REQUEST_TYPE, P::ECHO_REQUEST_CODE, identificador, secuencia, self.carga@);
        let mut buffer: [u8; 16] = [0u8; 16];
        buffer[0] = P::ECHO_REQUEST_TYPE;
        buffer[1] = P::ECHO_REQUEST_CODE;
        buffer[4] = (identificador / 256) as u8;
        buffer[5] = (identificador % 256) as u8;
        buffer[6] = (secuencia / 256) as u8;
        buffer[7] = (secuencia % 256) as u8;
        let n: usize = if self.carga.len() < 8 { self.carga.len() } else { 8 };
        let mut j: usize = 0;
        while j < n
            invariant
                n == bytes_de_carga(self.carga@),
                m == mensaje_sin_checksum(P::ECHO_REQUEST_TYPE, P::ECHO_REQUEST_CODE, identificador, secuencia, self.carga@),
                j <= n,
                buffer@.len() == 16,
                forall|i: int| 0 <= i < 8 + j ==> buffer@[i] == m[i],
                forall|i: int| 8 + j <= i < 16 ==> buffer@[i] == 0,
            decreases n - j,
        {
            buffer[8 + j] = self.carga[j];
            j = j + 1;
        }
        assert(buffer@ =~= m);
        let checksum = calcular_checksum(buffer.as_slice());
        buffer[2] = (checksum / 256) as u8;
        buffer[3] = (checksum % 256) as u8;
        assert(buffer@ =~= con_checksum(m));
        proof {
            ley_carga_en_paquete_eco(P::ECHO_REQUEST_TYPE, P::ECHO_REQUEST_CODE, identificador, secuencia, self.carga@);
        }
        Ok(buffer)
    }
}

/// La palabra de 16 bits número `i` de `s`, en orden de red; un último byte
/// sin pareja se completa con un cero a la derecha.
pub open spec fn palabra(s: Seq<u8>, i: int) -> nat {
    let alto = s[2 * i] as nat;
    let bajo: nat = if 2 * i + 1 < s.len() { s[2 * i + 1] as nat } else { 0 };
    alto * 256 + bajo
}

/// Cuántas palabras de 16 bits cubren `s`.
pub open spec fn num_palabras(s: Seq<u8>) -> nat {
    ((s.len() + 1) / 2) as nat
}

/// La suma (sin acotar) de las primeras `n` palabras de `s`.
pub open spec fn suma_palabras(s: Seq<u8>, n: nat) -> nat
    decreases n,
{
    if n == 0 {
        0
    } else {
        suma_palabras(s, (n - 1) as nat) + palabra(s, n - 1)
    }
}

/// Suma de los acarreos: se pliegan los bits altos sobre los 16 bits bajos
/// hasta que el valor cabe en 16 bits.
pub open spec fn plegar(x: nat) -> nat
    decreases x,
{
    if x < 0x10000 {
        x
    } else {
        plegar(x % 0x10000 + x / 0x10000)
    }
}

/// La suma de verificación de Internet de `s` tal como la calcula la sonda:
/// la suma de palabras se acumula en 32 bits con desbordamiento modular, se
/// pliega a 16 bits y se complementa.
pub open spec fn checksum(s: Seq<u8>) -> u16 {
    (0xffff - plegar(suma_palabras(s, num_palabras(s)) % 0x1_0000_0000)) as u16
}

/// Calcula la suma de verificación de Internet (complemento a uno de la suma
/// en complemento a uno de las palabras de 16 bits) de `buffer`.
pub fn calcular_checksum(buffer: &[u8]) -> (r: u16)
    ensures
        r == checksum(buffer@),
{
    let n = buffer.len();
    let mut sum: u32 = 0;
    let mut pos: usize = 0;
    while pos + 1 < n
        invariant
            n == buffer@.len(),
            pos <= n,
            pos % 2 == 0,
            sum as nat == suma_palabras(buffer@, (pos / 2) as nat) % 0x1_0000_0000,
        decreases n - pos,
    {
        let part: u16 = (buffer[pos] as u16) * 256 + buffer[pos + 1] as u16;
        proof {
            lema_suma_modular(suma_palabras(buffer@, (pos / 2) as nat), part as nat);
        }
        sum = sum.wrapping_add(part as u32);
        pos = pos + 2;
    }
    if pos < n {
        let part: u16 = (buffer[pos] as u16) * 256;
        proof {
            lema_suma_modular(suma_palabras(buffer@, (pos / 2) as nat), part as nat);
        }
        sum = sum.wrapping_add(part as u32);
        pos = pos + 1;
    }
    assert(sum as nat == suma_palabras(buffer@, num_palabras(buffer@)) % 0x1_0000_0000);
    let ghost total: nat = sum as nat;
    while (sum >> 16) > 0
        invariant
            plegar(sum as nat) == plegar(total),
        decreases sum,
    {
        assert((sum & 0xffff) == sum % 0x10000) by (bit_vector);
        assert((sum >> 16) == sum / 0x10000) by (bit_vector);
        assert((sum >> 16) <= 0xffff) by (bit_vector);
        assert((sum >> 16) > 0 ==> sum >= 0x10000) by (bit_vector);
        sum = (sum & 0xffff) + (sum >> 16);
    }
    assert((sum >> 16) == 0 ==> sum < 0x10000) by (bit_vector);
    assert(sum < 0x10000 ==> ((!sum) & 0xffff) == 0xffff - sum) by (bit_vector);
    let r: u32 = !sum;
    (r & 0xffff) as u16
}

/// Sumar una palabra al acumulador modular equivale a sumarla a la suma exacta.
proof fn lema_suma_modular(s: nat, p: nat)
    requires
        p < 0x10000,
    ensures
        vstd::wrapping::u32_specs::wrapping_add((s % 0x1_0000_0000) as u32, p as u32) as nat
            == (s + p) % 0x1_0000_0000,
{
    let m: int = 0x1_0000_0000;
    let a: int = s as int % m;
    assert(0 <= a < m);
    vstd::arithmetic::div_mod::lemma_fundamental_div_mod(s as int, m);
    let q: int = s as int / m;
    assert(s as int == m * q + a);
    if a + p < m {
        vstd::arithmetic::div_mod::lemma_mod_multiples_vanish(q, a + p, m);
        vstd::arithmetic::div_mod::lemma_small_mod((a + p) as nat, m as nat);
        assert(s + p == m * q + (a + p));
    } else {
        vstd::arithmetic::div_mod::lemma_mod_multiples_vanish(q + 1, a + p - m, m);
        vstd::arithmetic::div_mod::lemma_small_mod((a + p - m) as nat, m as nat);
        assert(s + p == m * (q + 1) + (a + p - m)) by (nonlinear_arith)
            requires s as int == m * q + a;
    }
}


/// Plegar deja un valor de 16 bits congruente con el original módulo 0xffff,
/// y distinto de cero si el original lo era.
proof fn lema_plegar(x: nat)
    ensures
        plegar(x) <= 0xffff,
        plegar(x) % 0xffff == x % 0xffff,
        x > 0 ==> plegar(x) > 0,
    decreases x,
{
    if x >= 0x10000 {
        let q = x / 0x10000;
        let r = x % 0x10000;
        let y = r + q;
        assert(x == 0x10000 * q + r);
        assert(y < x);
        assert(x == 0xffff * q + y);
        vstd::arithmetic::div_mod::lemma_mod_multiples_vanish(q as int, y as int, 0xffff);
        lema_plegar(y);
    }
}

/// Cada palabra cabe en 16 bits, así que la suma de `n` palabras no pasa de
/// `n * 0xffff`.
proof fn lema_cota_suma(s: Seq<u8>, n: nat)
    requires
        n <= num_palabras(s),
    ensures
        suma_palabras(s, n) <= n * 0xffff,
    decreases n,
{
    if n > 0 {
        lema_cota_suma(s, (n - 1) as nat);
        let i = n - 1;
        assert(palabra(s, i) <= 0xffff);
    }
}

/// Escribir `c` en la palabra 1 (antes a cero) suma exactamente `c` a la suma
/// de las palabras que la incluyen, y deja igual las demás.
proof fn lema_suma_palabra_uno(s: Seq<u8>, c: u16, n: nat)
    requires
        4 <= s.len(),
        s[2] == 0,
        s[3] == 0,
        n <= num_palabras(s),
    ensures
        suma_palabras(s.update(2, (c / 256) as u8).update(3, (c % 256) as u8), n)
            == suma_palabras(s, n) + (if n >= 2 { c as nat } else { 0 }),
    decreases n,
{
    let t = s.update(2, (c / 256) as u8).update(3, (c % 256) as u8);
    if n > 0 {
        lema_suma_palabra_uno(s, c, (n - 1) as nat);
        let i = n - 1;
        if i == 1 {
            assert(palabra(t, 1) == c as nat);
            assert(palabra(s, 1) == 0);
        } else {
            assert(palabra(t, i) == palabra(s, i));
        }
    }
}

/// Ley de la suma de verificación de Internet: un mensaje cuyo campo de suma
/// (bytes 2 y 3) estaba a cero y que lleva escrita ahí su propia suma de
/// verificación da suma cero al recalcularla, como comprueba el receptor.
/// Vale mientras la suma de palabras no desborde los 32 bits del acumulador,
/// es decir, para mensajes de hasta 0x10001 palabras.
pub proof fn ley_checksum_verifica(m: Seq<u8>)
    requires
        4 <= m.len(),
        m[2] == 0,
        m[3] == 0,
        num_palabras(m) <= 0x10001,
    ensures
        checksum(con_checksum(m)) == 0,
{
    let w = num_palabras(m);
    let c = checksum(m);
    let t = con_checksum(m);
    let s = suma_palabras(m, w);
    lema_cota_suma(m, w);
    assert(w * 0xffff < 0x1_0000_0000) by (nonlinear_arith)
        requires w <= 0x10001;
    vstd::arithmetic::div_mod::lemma_small_mod(s, 0x1_0000_0000);
    lema_plegar(s);
    assert(c as nat == 0xffff - plegar(s));
    assert(num_palabras(t) == w);
    lema_suma_palabra_uno(m, c, w);
    let s2 = suma_palabras(t, w);
    lema_cota_suma(t, w);
    assert(s2 == s + c);
    assert(s2 < 0x1_0000_0000);
    vstd::arithmetic::div_mod::lemma_small_mod(s2, 0x1_0000_0000);
    lema_plegar(s2);
    let p = plegar(s);
    assert(s2 > 0);
    assert(s2 % 0xffff == 0) by {
        let d: int = 0xffff;
        vstd::arithmetic::div_mod::lemma_fundamental_div_mod(s as int, d);
        vstd::arithmetic::div_mod::lemma_fundamental_div_mod(p as int, d);
        let k: int = s as int / d - p as int / d;
        assert(s as int - p as int == d * k) by (nonlinear_arith)
            requires
                s as int == d * (s as int / d) + s as int % d,
                p as int == d * (p as int / d) + p as int % d,
                s as int % d == p as int % d,
                k == s as int / d - p as int / d;
        assert(s2 as int == d * (k + 1) + 0) by (nonlinear_arith)
            requires
                s2 as int == s as int + 0xffff - p as int,
                s as int - p as int == d * k,
                d == 0xffff;
        vstd::arithmetic::div_mod::lemma_mod_multiples_vanish(k + 1, 0, d);
    }
    assert(plegar(s2) == 0xffff);
}

/// Una solicitud de eco codificada pasa la comprobación de su suma de
/// verificación en el receptor: la suma recalculada sobre el mensaje entero
/// es cero.
pub proof fn ley_paquete_eco_verifica(tipo: u8, codigo: u8, id: u16, secuencia: u16, carga: Seq<u8>)
    ensures
        checksum(paquete_eco(tipo, codigo, id, secuencia, carga)) == 0,
{
    ley_checksum_verifica(mensaje_sin_checksum(tipo, codigo, id, secuencia, carga));
}


proof fn lema_suma_con_cero_final(s: Seq<u8>, n: nat)
    requires
        s.len() % 2 == 1,
        n <= num_palabras(s),
    ensures
        suma_palabras(s.push(0), n) == suma_palabras(s, n),
    decreases n,
{
    if n > 0 {
        lema_suma_con_cero_final(s, (n - 1) as nat);
        assert(palabra(s.push(0), n - 1) == palabra(s, n - 1));
    }
}

/// Un mensaje de longitud impar se suma como si llevara un byte cero más al
/// final: completar la última palabra con ceros no cambia la suma de
/// verificación.
pub proof fn ley_relleno_impar(s: Seq<u8>)
    requires
        s.len() % 2 == 1,
    ensures
        checksum(s.push(0)) == checksum(s),
{
    assert(num_palabras(s.push(0)) == num_palabras(s));
    lema_suma_con_cero_final(s, num_palabras(s));
}

/// Lo que un receptor lee de una solicitud de eco codificada: 16 bytes con
/// el tipo y el código, la suma de verificación del mensaje con ese campo a
/// cero, el identificador y la secuencia en orden de red, y los primeros
/// bytes de la carga (hasta 8) seguidos de ceros.
pub proof fn ley_campos_paquete_eco(tipo: u8, codigo: u8, id: u16, secuencia: u16, carga: Seq<u8>)
    ensures
        ({
            let p = paquete_eco(tipo, codigo, id, secuencia, carga);
            let n = bytes_de_carga(carga);
            &&& p.len() == 16
            &&& p[0] == tipo
            &&& p[1] == codigo
            &&& p[2] as nat * 256 + p[3] as nat == checksum(mensaje_sin_checksum(tipo, codigo, id, secuencia, carga))
            &&& p[4] as nat * 256 + p[5] as nat == id
            &&& p[6] as nat * 256 + p[7] as nat == secuencia
            &&& p.subrange(8, 8 + n) == carga.take(n)
            &&& forall|i: int| 8 + n <= i < 16 ==> p[i] == 0
        }),
{
    let p = paquete_eco(tipo, codigo, id, secuencia, carga);
    let n = bytes_de_carga(carga);
    assert(p.subrange(8, 8 + n) =~= carga.take(n));
}

/// La carga viaja tras la cabecera de 8 bytes: los bytes 8 a 15 del
/// paquete son los primeros min(longitud, 8) bytes de la carga, en orden, y
/// ceros después.
pub proof fn ley_carga_en_paquete_eco(tipo: u8, codigo: u8, id: u16, secuencia: u16, carga: Seq<u8>)
    ensures
        paquete_eco(tipo, codigo, id, secuencia, carga).len() == 16,
        forall|i: int|
            0 <= i < 8 ==> #[trigger] paquete_eco(tipo, codigo, id, secuencia, carga)[8 + i]
                == (if i < carga.len() { carga[i] } else { 0u8 }),
{
}

} // verus!

use vstd::prelude::*;

use crate::errors::TamaraBackendError;

verus! {

/// El dígito hexadecimal en minúscula de `d` (`d < 16`).
pub open spec fn hex_minuscula(d: nat) -> char {
    if d < 10 {
        (48 + d) as char
    } else {
        (87 + d) as char
    }
}

/// El nibble `k` de `v`, contando desde el más significativo (`0 <= k < 32`).
pub open spec fn nibble(v: u128, k: int) -> nat {
    ((v >> ((124 - 4 * k) as u32)) & 0xf) as nat
}

/// Qué nibble se escribe en la posición `i` del texto de un UUID: las
/// posiciones 8, 13, 18 y 23 son guiones.
pub open spec fn indice_nibble(i: int) -> int {
    if i < 8 {
        i
    } else if i < 13 {
        i - 1
    } else if i < 18 {
        i - 2
    } else if i < 23 {
        i - 3
    } else {
        i - 4
    }
}

/// El texto de un UUID de valor `v` en la forma con guiones y hexadecimal en
/// minúscula, `xxxxxxxx-xxxx-xxxx-xxxx-xxxxxxxxxxxx`, del byte más
/// significativo al menos.
pub open spec fn texto_uuid(v: u128) -> Seq<char> {
    Seq::new(
        36,
        |i: int|
            if i == 8 || i == 13 || i == 18 || i == 23 {
                '-'
            } else {
                hex_minuscula(nibble(v, indice_nibble(i)))
            },
    )
}

/// Escribe el UUID de valor `v` con `uuid::Uuid::from_u128` y su `to_string`
/// (la forma con guiones en minúscula). Se confía en que el texto es
/// `texto_uuid(v)`, como documenta y hace el formateo del crate `uuid`.
#[verifier::external_body]
fn uuid_a_texto(v: u128) -> (r: String)
    ensures
        r@ == texto_uuid(v),
{
    uuid::Uuid::from_u128(v).to_string()
}

/// La URL a la que se avisa del sondeo: `http://<base_url>/`.
pub fn url_aviso(base_url: &str) -> (r: String)
    ensures
        r@ == seq!['h', 't', 't', 'p', ':', '/', '/'] + base_url@ + seq!['/'],
{
    proof {
        reveal_strlit("http://");
        reveal_strlit("/");
    }
    let mut s = String::from_str("http://");
    s.append(base_url);
    s.append("/");
    s
}

/// Decide si la API confirmó el aviso: la respuesta debe tener estado 201 y
/// una cabecera `X-uuid-poller` (aquí `cabecera`, `None` si falta o no es
/// texto) igual a `esperado`. Cualquier otra respuesta es `RecepcionWebError`.
pub fn comprobar_respuesta(estado: u16, cabecera: Option<&str>, esperado: &str) -> (r: Result<(), TamaraBackendError>)
    ensures
        r is Ok <==> (estado == 201 && cabecera is Some && cabecera->0@ == esperado@),
        r is Err ==> r matches Err(TamaraBackendError::RecepcionWebError),
{
    if estado != 201 {
        return Err(TamaraBackendError::RecepcionWebError);
    }
    let recibido = match cabecera {
        Some(v) => v,
        None => {
            return Err(TamaraBackendError::RecepcionWebError);
        },
    };
    let recibido = String::from_str(recibido);
    let esperado = String::from_str(esperado);
    if recibido == esperado {
        Ok(())
    } else {
        Err(TamaraBackendError::RecepcionWebError)
    }
}

/// Decide si la API confirmó el aviso de la sonda `identificador`: como
/// `comprobar_respuesta` con el texto del UUID de la sonda.
pub fn comprobar_respuesta_aviso(estado: u16, cabecera: Option<&str>, identificador: u128) -> (r: Result<(), TamaraBackendError>)
    ensures
        r is Ok <==> (estado == 201 && cabecera is Some && cabecera->0@ == texto_uuid(identificador)),
        r is Err ==> r matches Err(TamaraBackendError::RecepcionWebError),
{
    let esperado = uuid_a_texto(identificador);
    comprobar_respuesta(estado, cabecera, esperado.as_str())
}

} // verus!

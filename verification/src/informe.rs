use vstd::prelude::*;

use crate::tipos::icmp::ResultadoIcmp;
use crate::utils::{decimal, es_decimal_canonico, escribir_decimal, ley_decimal, valor_decimal};

verus! {

/// Cuántos de los resultados dicen que el host está arriba.
pub open spec fn contar_arriba(s: Seq<ResultadoIcmp>) -> nat
    decreases s.len(),
{
    if s.len() == 0 {
        0
    } else {
        contar_arriba(s.drop_last()) + (if s.last().arriba { 1nat } else { 0nat })
    }
}

/// El mensaje que cierra la fase de sondeo:
/// `"Host > Arriba: <arriba> - Abajo: <abajo>"`.
pub open spec fn mensaje_polling(arriba: nat, abajo: nat) -> Seq<char> {
    "Host > Arriba: "@ + decimal(arriba) + " - Abajo: "@ + decimal(abajo)
}

/// El mensaje de la fase se lee de vuelta: tras `"Host > Arriba: "` va un
/// número decimal canónico que vale `arriba`, luego `" - Abajo: "` y otro
/// que vale `abajo`.
pub proof fn ley_mensaje_polling(arriba: nat, abajo: nat)
    ensures
        exists|x: Seq<char>, y: Seq<char>|
            #![trigger valor_decimal(x), valor_decimal(y)]
            {
                &&& mensaje_polling(arriba, abajo) == "Host > Arriba: "@ + x + " - Abajo: "@ + y
                &&& es_decimal_canonico(x) && valor_decimal(x) == arriba
                &&& es_decimal_canonico(y) && valor_decimal(y) == abajo
            },
{
    ley_decimal(arriba);
    ley_decimal(abajo);
    let (x, y) = (decimal(arriba), decimal(abajo));
    assert(valor_decimal(x) == arriba && valor_decimal(y) == abajo);
}

/// Contar los hosts arriba reparte sobre la concatenación de resultados.
pub proof fn ley_contar_arriba_concatena(a: Seq<ResultadoIcmp>, b: Seq<ResultadoIcmp>)
    ensures
        contar_arriba(a + b) == contar_arriba(a) + contar_arriba(b),
        contar_abajo(a + b) == contar_abajo(a) + contar_abajo(b),
    decreases b.len(),
{
    if b.len() == 0 {
        assert(a + b =~= a);
    } else {
        ley_contar_arriba_concatena(a, b.drop_last());
        assert((a + b).drop_last() =~= a + b.drop_last());
    }
}

/// Un solo resultado cuenta como arriba si dice que el host respondió, y
/// como abajo si no.
pub proof fn ley_contar_un_resultado(r: ResultadoIcmp)
    ensures
        contar_arriba(seq![r]) == (if r.arriba { 1nat } else { 0nat }),
        contar_abajo(seq![r]) == (if r.arriba { 0nat } else { 1nat }),
{
    let s = seq![r];
    assert(s.drop_last() =~= Seq::<ResultadoIcmp>::empty());
    assert(s.last() == r);
    assert(contar_arriba(Seq::<ResultadoIcmp>::empty()) == 0);
    assert(contar_abajo(Seq::<ResultadoIcmp>::empty()) == 0);
    assert(contar_arriba(s) == contar_arriba(s.drop_last()) + (if s.last().arriba { 1nat } else { 0nat }));
    assert(contar_abajo(s) == contar_abajo(s.drop_last()) + (if s.last().arriba { 0nat } else { 1nat }));
}

/// Cuántos de los resultados dicen que el host no responde.
pub open spec fn contar_abajo(s: Seq<ResultadoIcmp>) -> nat
    decreases s.len(),
{
    if s.len() == 0 {
        0
    } else {
        contar_abajo(s.drop_last()) + (if s.last().arriba { 0nat } else { 1nat })
    }
}

/// Cada resultado cuenta o arriba o abajo: las dos cuentas suman el total.
pub proof fn ley_arriba_mas_abajo(s: Seq<ResultadoIcmp>)
    ensures
        contar_arriba(s) + contar_abajo(s) == s.len(),
    decreases s.len(),
{
    if s.len() > 0 {
        ley_arriba_mas_abajo(s.drop_last());
    }
}

proof fn lema_prefijo_total<T>(s: Seq<T>)
    ensures
        s.take(s.len() as int) == s,
{
    assert(s.take(s.len() as int) =~= s);
}

/// Cuenta los resultados arriba.
fn contar_hosts_arriba(resultados: &Vec<ResultadoIcmp>) -> (r: usize)
    ensures
        r == contar_arriba(resultados@),
{
    let total = resultados.len();
    let mut n: usize = 0;
    for r in it: resultados.iter()
        invariant
            n == contar_arriba(resultados@.take(it.index())),
            n <= it.index() <= resultados@.len(),
            total == resultados@.len(),
            it.seq().len() == resultados@.len(),
            forall|k: int| 0 <= k < resultados@.len() ==> *it.seq()[k] == resultados@[k],
    {
        assert(resultados@.take(it.index() + 1).drop_last() =~= resultados@.take(it.index()));
        if r.arriba {
            n = n + 1;
        }
    }
    proof {
        lema_prefijo_total(resultados@);
    }
    n
}

/// Resume la fase de sondeo: cuántos hosts respondieron y cuántos no.
pub fn crear_mensaje_polling(resultados: &Vec<ResultadoIcmp>) -> (r: String)
    ensures
        r@ == mensaje_polling(contar_arriba(resultados@), contar_abajo(resultados@)),
{
    let arriba = contar_hosts_arriba(resultados);
    proof {
        ley_arriba_mas_abajo(resultados@);
    }
    let abajo = resultados.len() - arriba;
    componer_mensaje_polling(arriba, abajo)
}

fn componer_mensaje_polling(arriba: usize, abajo: usize) -> (r: String)
    ensures
        r@ == mensaje_polling(arriba as nat, abajo as nat),
{
    let mut s = String::from_str("Host > Arriba: ");
    escribir_decimal(&mut s, arriba as u64);
    s.append(" - Abajo: ");
    escribir_decimal(&mut s, abajo as u64);
    s
}

} // verus!

use vstd::prelude::*;

verus! {

/// Lo que el patrón `(?P<tipo>Planning|Execution) Time:\s(?P<tiempo>\d+\.\d+)\sms`
/// captura en la primera coincidencia dentro de una línea del plan de
/// `EXPLAIN ANALYZE`: el tipo de tiempo y el número tal como está escrito,
/// o `None` si la línea no coincide.
pub uninterp spec fn captura_tiempo_plan(linea: Seq<char>) -> Option<(Seq<char>, Seq<char>)>;

/// Busca en `linea` el tiempo de planificación o de ejecución con
/// `regex::Regex::captures` sobre el patrón de `captura_tiempo_plan` y
/// devuelve los grupos `tipo` y `tiempo`. Se confía en que el resultado
/// depende solo de la línea (la búsqueda del crate `regex` es determinista);
/// qué líneas coinciden no se enuncia más allá del nombre.
#[verifier::external_body]
fn capturar_tiempo_plan(linea: &str) -> (r: Option<(String, String)>)
    ensures
        r is None <==> captura_tiempo_plan(linea@) is None,
        r matches Some((t, x)) ==> captura_tiempo_plan(linea@) == Some((t@, x@)),
{
    let examinador = regex::Regex::new(r"(?P<tipo>Planning|Execution) Time:\s(?P<tiempo>\d+\.\d+)\sms").unwrap();
    match examinador.captures(linea) {
        Some(grupo) => Some((
            grupo.name("tipo").unwrap().as_str().to_string(),
            grupo.name("tiempo").unwrap().as_str().to_string(),
        )),
        None => None,
    }
}

/// Un par de textos por sus vistas.
pub open spec fn vista_par(p: (String, String)) -> (Seq<char>, Seq<char>) {
    (p.0@, p.1@)
}

/// Un par de textos opcional por sus vistas.
pub open spec fn vista_captura(c: Option<(String, String)>) -> Option<(Seq<char>, Seq<char>)> {
    match c {
        Some(p) => Some(vista_par(p)),
        None => None,
    }
}

/// Las capturas presentes, en orden, sin las ausentes.
pub open spec fn solo_capturas(s: Seq<Option<(Seq<char>, Seq<char>)>>) -> Seq<(Seq<char>, Seq<char>)>
    decreases s.len(),
{
    if s.len() == 0 {
        Seq::empty()
    } else {
        solo_capturas(s.drop_last()) + match s.last() {
            Some(p) => seq![p],
            None => Seq::empty(),
        }
    }
}

/// Quedarse con las capturas presentes conserva el orden: sobre dos tramos
/// seguidos da lo del primero y después lo del segundo.
pub proof fn ley_solo_capturas_concatena(a: Seq<Option<(Seq<char>, Seq<char>)>>, b: Seq<Option<(Seq<char>, Seq<char>)>>)
    ensures
        solo_capturas(a + b) == solo_capturas(a) + solo_capturas(b),
    decreases b.len(),
{
    if b.len() == 0 {
        assert(a + b =~= a);
        assert(solo_capturas(a) + solo_capturas(b) =~= solo_capturas(a));
    } else {
        ley_solo_capturas_concatena(a, b.drop_last());
        assert((a + b).drop_last() =~= a + b.drop_last());
        assert((a + b).last() == b.last());
        let extra = match b.last() {
            Some(p) => seq![p],
            None => Seq::<(Seq<char>, Seq<char>)>::empty(),
        };
        assert(solo_capturas(a) + solo_capturas(b.drop_last()) + extra
            =~= solo_capturas(a) + (solo_capturas(b.drop_last()) + extra));
    }
}

/// Una captura presente se conserva y una ausente no deja nada.
pub proof fn ley_solo_capturas_una(c: Option<(Seq<char>, Seq<char>)>)
    ensures
        solo_capturas(seq![c]) == (match c {
            Some(p) => seq![p],
            None => Seq::<(Seq<char>, Seq<char>)>::empty(),
        }),
{
    let s = seq![c];
    assert(s.drop_last() =~= Seq::<Option<(Seq<char>, Seq<char>)>>::empty());
    assert(s.last() == c);
    assert(solo_capturas(Seq::<Option<(Seq<char>, Seq<char>)>>::empty()) == Seq::<(Seq<char>, Seq<char>)>::empty());
    let extra = match c {
        Some(p) => seq![p],
        None => Seq::<(Seq<char>, Seq<char>)>::empty(),
    };
    assert(solo_capturas(s) == solo_capturas(s.drop_last()) + extra);
    assert(Seq::<(Seq<char>, Seq<char>)>::empty() + extra =~= extra);
}

/// Las capturas de las líneas que coinciden, en el orden de las líneas.
pub open spec fn capturas_de(lineas: Seq<Seq<char>>) -> Seq<(Seq<char>, Seq<char>)> {
    solo_capturas(lineas.map_values(|l: Seq<char>| captura_tiempo_plan(l)))
}

/// Se queda con las capturas presentes, en orden.
pub fn reunir_capturas(capturas: &Vec<Option<(String, String)>>) -> (r: Vec<(String, String)>)
    ensures
        r@.map_values(|p: (String, String)| vista_par(p))
            == solo_capturas(capturas@.map_values(|c: Option<(String, String)>| vista_captura(c))),
{
    let mut r: Vec<(String, String)> = Vec::new();
    let mut i: usize = 0;
    while i < capturas.len()
        invariant
            i <= capturas.len(),
            r@.map_values(|p: (String, String)| vista_par(p))
                == solo_capturas(capturas@.take(i as int).map_values(|c: Option<(String, String)>| vista_captura(c))),
        decreases capturas.len() - i,
    {
        let ghost antes = capturas@.take(i as int).map_values(|c: Option<(String, String)>| vista_captura(c));
        let ghost despues = capturas@.take(i + 1).map_values(|c: Option<(String, String)>| vista_captura(c));
        assert(despues.drop_last() =~= antes);
        assert(despues.last() == vista_captura(capturas@[i as int]));
        match &capturas[i] {
            Some((t, x)) => {
                r.push((t.clone(), x.clone()));
            },
            None => {},
        }
        assert(r@.map_values(|p: (String, String)| vista_par(p)) =~= solo_capturas(despues));
        i = i + 1;
    }
    assert(capturas@.take(i as int) =~= capturas@);
    r
}

/// Los tiempos que aparecen en las líneas de un plan de `EXPLAIN ANALYZE`:
/// para cada línea que coincide con el patrón, en orden, el tipo
/// (`Planning` o `Execution`) y el número escrito en milisegundos.
pub fn tiempos_del_plan(lineas: &Vec<String>) -> (r: Vec<(String, String)>)
    ensures
        r@.map_values(|p: (String, String)| vista_par(p)) == capturas_de(lineas@.map_values(|l: String| l@)),
{
    let mut capturas: Vec<Option<(String, String)>> = Vec::new();
    let mut i: usize = 0;
    while i < lineas.len()
        invariant
            i <= lineas.len(),
            capturas.len() == i,
            forall|k: int| 0 <= k < i ==> vista_captura(#[trigger] capturas@[k]) == captura_tiempo_plan(lineas@[k]@),
        decreases lineas.len() - i,
    {
        let c = capturar_tiempo_plan(lineas[i].as_str());
        capturas.push(c);
        i = i + 1;
    }
    let r = reunir_capturas(&capturas);
    assert(capturas@.map_values(|c: Option<(String, String)>| vista_captura(c))
        =~= lineas@.map_values(|l: String| l@).map_values(|l: Seq<char>| captura_tiempo_plan(l)));
    r
}

} // verus!

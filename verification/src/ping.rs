use vstd::prelude::*;

verus! {

/// Si un host respondió al eco.
#[derive(Clone, Debug)]
pub struct Resultado {
    pub host: String,
    pub arriba: bool,
}

/// El texto de un resultado: `"<host> esta arriba"` o `"<host> esta abajo"`.
pub open spec fn texto_resultado(r: Resultado) -> Seq<char> {
    r.host@ + " esta "@ + (if r.arriba { "arriba"@ } else { "abajo"@ })
}

/// El texto de un resultado empieza por el host, sigue con `" esta "` y
/// termina en `"arriba"` si respondió o en `"abajo"` si no.
pub proof fn ley_texto_resultado(r: Resultado)
    ensures
        ({
            let t = texto_resultado(r);
            let h = r.host@.len() as int;
            &&& t.subrange(0, h) == r.host@
            &&& t.subrange(h, h + 6) == seq![' ', 'e', 's', 't', 'a', ' ']
            &&& t.subrange(h + 6, t.len() as int)
                == (if r.arriba { seq!['a', 'r', 'r', 'i', 'b', 'a'] } else { seq!['a', 'b', 'a', 'j', 'o'] })
        }),
{
    reveal_strlit(" esta ");
    reveal_strlit("arriba");
    reveal_strlit("abajo");
    let t = texto_resultado(r);
    let h = r.host@.len() as int;
    assert(t.subrange(0, h) =~= r.host@);
    assert(t.subrange(h, h + 6) =~= seq![' ', 'e', 's', 't', 'a', ' ']);
    if r.arriba {
        assert(t.subrange(h + 6, t.len() as int) =~= seq!['a', 'r', 'r', 'i', 'b', 'a']);
    } else {
        assert(t.subrange(h + 6, t.len() as int) =~= seq!['a', 'b', 'a', 'j', 'o']);
    }
}

impl Resultado {
    /// Describe el resultado.
    pub fn to_string(&self) -> (s: String)
        ensures
            s@ == texto_resultado(*self),
    {
        let arriba = if self.arriba { "arriba" } else { "abajo" };
        let mut s = self.host.clone();
        s.append(" esta ");
        s.append(arriba);
        s
    }
}

} // verus!

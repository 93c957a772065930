use vstd::prelude::*;

verus! {

/// El carácter del dígito decimal `d` (`d < 10`).
pub open spec fn digito(d: nat) -> char {
    (48 + d) as char
}

/// La representación decimal de `n`, sin ceros a la izquierda.
pub open spec fn decimal(n: nat) -> Seq<char>
    decreases n,
{
    if n < 10 {
        seq![digito(n)]
    } else {
        decimal(n / 10).push(digito(n % 10))
    }
}

/// Si `c` es una cifra decimal, de `'0'` a `'9'`.
pub open spec fn es_cifra(c: char) -> bool {
    48 <= (c as int) <= 57
}

/// El número que se lee en una cadena de cifras decimales.
pub open spec fn valor_decimal(s: Seq<char>) -> nat
    decreases s.len(),
{
    if s.len() == 0 {
        0
    } else {
        valor_decimal(s.drop_last()) * 10 + ((s.last() as int - 48) as nat)
    }
}

/// Un número escrito en decimal sin ceros a la izquierda: no vacío, solo
/// cifras, y sin `'0'` inicial salvo el propio cero.
pub open spec fn es_decimal_canonico(s: Seq<char>) -> bool {
    &&& s.len() > 0
    &&& forall|i: int| 0 <= i < s.len() ==> #[trigger] es_cifra(s[i])
    &&& (s.len() == 1 || s[0] != '0')
}

/// La escritura decimal de `n` es canónica y se lee de vuelta como `n`.
pub proof fn ley_decimal(n: nat)
    ensures
        es_decimal_canonico(decimal(n)),
        valor_decimal(decimal(n)) == n,
        n > 0 ==> decimal(n)[0] != '0',
    decreases n,
{
    if n < 10 {
        assert(decimal(n).drop_last() =~= Seq::<char>::empty());
        assert(digito(n) as int == 48 + n);
        assert(decimal(n).last() == digito(n));
        assert(valor_decimal(Seq::<char>::empty()) == 0);
        assert(valor_decimal(decimal(n)) == valor_decimal(decimal(n).drop_last()) * 10
            + ((decimal(n).last() as int - 48) as nat));
    } else {
        ley_decimal(n / 10);
        let d = decimal(n);
        assert(d.drop_last() =~= decimal(n / 10));
        assert(d.last() == digito(n % 10));
        assert(digito(n % 10) as int == 48 + n % 10);
        assert(valor_decimal(d) == valor_decimal(decimal(n / 10)) * 10 + n % 10);
        assert((n / 10) * 10 + n % 10 == n);
        assert(d[0] == decimal(n / 10)[0]);
        assert forall|i: int| 0 <= i < d.len() implies #[trigger] es_cifra(d[i]) by {
            if i < d.len() - 1 {
                assert(d[i] == decimal(n / 10)[i]);
                assert(es_cifra(decimal(n / 10)[i]));
            }
        }
    }
}

fn texto_digito(d: u64) -> (r: &'static str)
    requires
        d < 10,
    ensures
        r@ == seq![digito(d as nat)],
{
    proof {
        reveal_strlit("0");
        reveal_strlit("1");
        reveal_strlit("2");
        reveal_strlit("3");
        reveal_strlit("4");
        reveal_strlit("5");
        reveal_strlit("6");
        reveal_strlit("7");
        reveal_strlit("8");
        reveal_strlit("9");
    }
    if d == 0 {
        "0"
    } else if d == 1 {
        "1"
    } else if d == 2 {
        "2"
    } else if d == 3 {
        "3"
    } else if d == 4 {
        "4"
    } else if d == 5 {
        "5"
    } else if d == 6 {
        "6"
    } else if d == 7 {
        "7"
    } else if d == 8 {
        "8"
    } else {
        "9"
    }
}

/// Añade a `s` la representación decimal de `n`, como la escribe
/// `format!("{}", n)`.
pub fn escribir_decimal(s: &mut String, n: u64)
    ensures
        final(s)@ == old(s)@ + decimal(n as nat),
    decreases n,
{
    if n >= 10 {
        escribir_decimal(s, n / 10);
    }
    s.append(texto_digito(n % 10));
    proof {
        if n >= 10 {
            assert(decimal(n as nat) == decimal((n / 10) as nat).push(digito((n % 10) as nat)));
        }
    }
}

/// La forma de texto de una dirección IPv4: sus cuatro octetos en decimal
/// separados por puntos.
pub open spec fn texto_ipv4_spec(a: Seq<u8>) -> Seq<char> {
    decimal(a[0] as nat) + seq!['.'] + decimal(a[1] as nat) + seq!['.'] + decimal(a[2] as nat)
        + seq!['.'] + decimal(a[3] as nat)
}

/// La forma de texto de una dirección IPv4 se lee de vuelta: son cuatro
/// números decimales canónicos separados por puntos, cuyos valores son los
/// cuatro octetos en orden.
pub proof fn ley_texto_ipv4(a: Seq<u8>)
    requires
        a.len() == 4,
    ensures
        exists|x0: Seq<char>, x1: Seq<char>, x2: Seq<char>, x3: Seq<char>|
            #![trigger valor_decimal(x0), valor_decimal(x1), valor_decimal(x2), valor_decimal(x3)]
            {
                &&& texto_ipv4_spec(a) == x0 + seq!['.'] + x1 + seq!['.'] + x2 + seq!['.'] + x3
                &&& es_decimal_canonico(x0) && valor_decimal(x0) == a[0]
                &&& es_decimal_canonico(x1) && valor_decimal(x1) == a[1]
                &&& es_decimal_canonico(x2) && valor_decimal(x2) == a[2]
                &&& es_decimal_canonico(x3) && valor_decimal(x3) == a[3]
            },
{
    ley_decimal(a[0] as nat);
    ley_decimal(a[1] as nat);
    ley_decimal(a[2] as nat);
    ley_decimal(a[3] as nat);
    let (x0, x1, x2, x3) = (decimal(a[0] as nat), decimal(a[1] as nat), decimal(a[2] as nat), decimal(a[3] as nat));
    assert(valor_decimal(x0) == a[0] && valor_decimal(x1) == a[1] && valor_decimal(x2) == a[2]
        && valor_decimal(x3) == a[3]);
}

/// Escribe una dirección IPv4 en la notación decimal con puntos.
pub fn texto_ipv4(a: [u8; 4]) -> (r: String)
    ensures
        r@ == texto_ipv4_spec(a@),
{
    proof {
        reveal_strlit(".");
    }
    let mut s = String::new();
    escribir_decimal(&mut s, a[0] as u64);
    s.append(".");
    escribir_decimal(&mut s, a[1] as u64);
    s.append(".");
    escribir_decimal(&mut s, a[2] as u64);
    s.append(".");
    escribir_decimal(&mut s, a[3] as u64);
    s
}

/// La línea que anuncia una fase: el prefijo `"####   "` y el mensaje
/// seguido de cuatro espacios, rellenado con `#` hasta 73 caracteres.
pub open spec fn linea_cabecera_spec(mensaje: Seq<char>) -> Seq<char> {
    let texto = mensaje + seq![' ', ' ', ' ', ' '];
    let relleno: nat = if texto.len() < 73 { (73 - texto.len()) as nat } else { 0 };
    seq!['#', '#', '#', '#', ' ', ' ', ' '] + texto + Seq::new(relleno, |i: int| '#')
}

/// La línea de cabecera empieza con `"####   "`, sigue con el mensaje y
/// cuatro espacios, y se completa con `#` hasta que el texto tras el prefijo
/// ocupa al menos 73 caracteres.
pub proof fn ley_linea_cabecera(m: Seq<char>)
    ensures
        ({
            let r = linea_cabecera_spec(m);
            let k = m.len() as int;
            let n = k + 4;
            &&& r.len() == 7 + (if n < 73 { 73 } else { n })
            &&& r.subrange(0, 7) == seq!['#', '#', '#', '#', ' ', ' ', ' ']
            &&& r.subrange(7, 7 + k) == m
            &&& r.subrange(7 + k, 7 + n) == seq![' ', ' ', ' ', ' ']
            &&& forall|i: int| 7 + n <= i < r.len() ==> #[trigger] r[i] == '#'
        }),
{
    let r = linea_cabecera_spec(m);
    let k = m.len() as int;
    assert(r.subrange(0, 7) =~= seq!['#', '#', '#', '#', ' ', ' ', ' ']);
    assert(r.subrange(7, 7 + k) =~= m);
    assert(r.subrange(7 + k, 7 + k + 4) =~= seq![' ', ' ', ' ', ' ']);
}

/// Compone la línea de cabecera de una fase, como
/// `format!("####   {:#<73}", format!("{}    ", mensaje))`.
pub fn linea_cabecera(mensaje: &str) -> (r: String)
    ensures
        r@ == linea_cabecera_spec(mensaje@),
{
    proof {
        reveal_strlit("####   ");
        reveal_strlit("    ");
        reveal_strlit("#");
    }
    let mut s = String::from_str("####   ");
    s.append(mensaje);
    s.append("    ");
    let largo = mensaje.unicode_len();
    let relleno: usize = if largo < 69 { 69 - largo } else { 0 };
    let ghost base = s@;
    let mut i: usize = 0;
    while i < relleno
        invariant
            i <= relleno,
            s@ == base + Seq::new(i as nat, |k: int| '#'),
        decreases relleno - i,
    {
        proof {
            reveal_strlit("#");
        }
        s.append("#");
        i = i + 1;
        assert(s@ =~= base + Seq::new(i as nat, |k: int| '#'));
    }
    assert(s@ =~= linea_cabecera_spec(mensaje@));
    s
}

/// Niveles de registro, de más silencioso a más detallado.
#[derive(Clone, Copy, Debug, PartialEq, Eq)]
pub enum NivelLog {
    Off,
    Error,
    Warn,
    Info,
    Debug,
    Trace,
}

/// Qué filtros recibe el registrador: el nivel para los mensajes de la
/// propia sonda y, si lo hay, el nivel global que se impone.
#[derive(Clone, Copy, Debug)]
pub struct ConfigLogger {
    pub nivel_modulo: NivelLog,
    pub nivel_global: Option<NivelLog>,
}

/// El nivel que corresponde a cada grado de verbosidad acumulada (`-v`,
/// `-vv`, `-vvv` o más): cada `-v` añadido nunca muestra menos.
pub open spec fn nivel_de_verbosidad(verbosidad: u8) -> NivelLog {
    if verbosidad == 0 {
        NivelLog::Error
    } else if verbosidad == 1 {
        NivelLog::Info
    } else if verbosidad == 2 {
        NivelLog::Debug
    } else {
        NivelLog::Trace
    }
}

/// Decide los filtros del registrador: la verbosidad fija el nivel del módulo
/// `tamara`; en modo silencioso no se muestra nada, ni de la sonda (nivel
/// del módulo `Off`) ni de otros módulos (nivel global `Off`).
pub fn configurar_logger(verbosidad: u8, quiet: bool) -> (r: ConfigLogger)
    ensures
        r.nivel_modulo == (if quiet { NivelLog::Off } else { nivel_de_verbosidad(verbosidad) }),
        r.nivel_global == (if quiet { Some(NivelLog::Off) } else { None::<NivelLog> }),
{
    if quiet {
        return ConfigLogger { nivel_modulo: NivelLog::Off, nivel_global: Some(NivelLog::Off) };
    }
    let nivel = match verbosidad {
        0 => NivelLog::Error,
        1 => NivelLog::Info,
        2 => NivelLog::Debug,
        _ => NivelLog::Trace,
    };
    ConfigLogger { nivel_modulo: nivel, nivel_global: None }
}

/// Orden de los niveles, de más silencioso (0) a más detallado (5).
pub open spec fn rango_nivel(n: NivelLog) -> nat {
    match n {
        NivelLog::Off => 0,
        NivelLog::Error => 1,
        NivelLog::Warn => 2,
        NivelLog::Info => 3,
        NivelLog::Debug => 4,
        NivelLog::Trace => 5,
    }
}

/// La verbosidad se acumula: con más `-v` el módulo de la sonda nunca
/// muestra menos.
pub proof fn ley_verbosidad_acumulativa(v1: u8, v2: u8)
    requires
        v1 <= v2,
    ensures
        rango_nivel(nivel_de_verbosidad(v1)) <= rango_nivel(nivel_de_verbosidad(v2)),
{
}

} // verus!

use tamara::icmp::destino::{Objetivo as ObjetivoIcmp, PasoCheck};
use tamara::icmp::icmp::{crear_filtros, FiltroSocket, Resultado as ResultadoHost};
use tamara::icmp::protocol::crear_filtros as crear_filtros_host;
use tamara::informe::crear_mensaje_polling;
use tamara::ping::Resultado;
use tamara::tipos::backend::Objetivo;
use tamara::tipos::configuracion::CfgConexionObjetivos;
use tamara::tipos::direccion::DireccionIp;
use tamara::tipos::icmp::{leer_ttl, ResultadoIcmp};

fn filtro(code: u16, jt: u8, jf: u8, k: u32) -> FiltroSocket {
    FiltroSocket { code, jt, jf, k }
}

#[test]
fn filtro_compara_protocolo_y_origen() {
    let f = crear_filtros([192, 168, 1, 10]);
    assert_eq!(
        f,
        vec![
            filtro(48, 0, 0, 9),
            filtro(21, 0, 3, 1),
            filtro(32, 0, 0, 12),
            filtro(21, 0, 1, 0xC0A8_010A),
            filtro(6, 0, 0, 262144),
            filtro(6, 0, 0, 0),
        ]
    );
}

#[test]
fn filtro_de_host_ipv4() {
    let f = crear_filtros_host(DireccionIp::V4([10, 0, 0, 1]));
    assert_eq!(f[3].k, 0x0A00_0001);
    assert_eq!(f.len(), 6);
}

#[test]
fn ttl_se_lee_del_byte_ocho() {
    let mut datos = [0u8; 64];
    datos[8] = 57;
    assert_eq!(leer_ttl(&datos), 57);
    assert_eq!(leer_ttl(&datos[..9]), 57);
    assert_eq!(leer_ttl(&datos[..8]), 0);
    assert_eq!(leer_ttl(&[]), 0);
}

#[test]
fn resultado_icmp_con_respuesta() {
    let mut datos = [0u8; 64];
    datos[8] = 255;
    let host = DireccionIp::V4([8, 8, 8, 8]);
    let r = ResultadoIcmp::new(3, host, true, 1234, &datos);
    assert_eq!(r.id, 3);
    assert_eq!(r.ttl, 255);
    assert!(r.arriba);
    assert_eq!(r.duracion_us, 1234);
    assert!(matches!(r.host, DireccionIp::V4([8, 8, 8, 8])));
}

#[test]
fn resultado_icmp_abajo() {
    let r = ResultadoIcmp::new_abajo(9, DireccionIp::V6([0, 0, 0, 0, 0, 0, 0, 1]));
    assert_eq!(r.id, 9);
    assert_eq!(r.ttl, 0);
    assert!(!r.arriba);
    assert_eq!(r.duracion_us, 0);
}

#[test]
fn objetivo_usa_predeterminados_si_faltan_columnas() {
    let pred = CfgConexionObjetivos { intentos: 3, timeout: 1000 };
    let ip = DireccionIp::V4([1, 2, 3, 4]);
    let o = Objetivo::new(5, ip, None, None, &pred);
    assert_eq!(o.id, 5);
    assert_eq!(o.cfg_conexion.intentos, 3);
    assert_eq!(o.cfg_conexion.timeout, 1000);
    let o = Objetivo::new(5, ip, Some(7), None, &pred);
    assert_eq!(o.cfg_conexion.intentos, 7);
    assert_eq!(o.cfg_conexion.timeout, 1000);
    let o = Objetivo::new(5, ip, None, Some(250), &pred);
    assert_eq!(o.cfg_conexion.intentos, 3);
    assert_eq!(o.cfg_conexion.timeout, 250);
}

fn resultado(arriba: bool) -> ResultadoIcmp {
    let host = DireccionIp::V4([127, 0, 0, 1]);
    if arriba {
        ResultadoIcmp::new(1, host, true, 10, &[0; 20])
    } else {
        ResultadoIcmp::new_abajo(1, host)
    }
}

#[test]
fn mensaje_de_polling_cuenta_arriba_y_abajo() {
    let v = vec![resultado(true), resultado(false), resultado(true)];
    assert_eq!(crear_mensaje_polling(&v), "Host > Arriba: 2 - Abajo: 1");
    assert_eq!(crear_mensaje_polling(&vec![]), "Host > Arriba: 0 - Abajo: 0");
    let muchos: Vec<ResultadoIcmp> = (0..1234).map(|i| resultado(i % 10 == 0)).collect();
    assert_eq!(crear_mensaje_polling(&muchos), "Host > Arriba: 124 - Abajo: 1110");
}

#[test]
fn resultado_de_ping_en_texto() {
    let r = Resultado { host: String::from("10.0.0.1"), arriba: true };
    assert_eq!(r.to_string(), "10.0.0.1 esta arriba");
    let r = Resultado { host: String::from("::1"), arriba: false };
    assert_eq!(r.to_string(), "::1 esta abajo");
}

#[test]
fn resultado_de_host_escribe_la_direccion() {
    let mut datos = [0u8; 10];
    datos[8] = 64;
    let r = ResultadoHost::new([192, 168, 100, 7], true, 500, &datos);
    assert_eq!(r.host, "192.168.100.7");
    assert_eq!(r.ttl, 64);
    assert!(r.arriba);
    assert_eq!(r.duracion_us, 500);
}

#[test]
fn objetivo_icmp_por_defecto_es_localhost() {
    let o = ObjetivoIcmp::new(None, 1500);
    assert_eq!(o.addr, [127, 0, 0, 1]);
    assert_eq!(o.timeout_ms, 1500);
    assert_eq!(o.ttl, 254);
    assert_eq!(&o.payload[..], "_ A Tamara, por salvar mi vida _".as_bytes());
    let o = ObjetivoIcmp::new(Some([8, 8, 4, 4]), -1);
    assert_eq!(o.addr, [8, 8, 4, 4]);
    assert_eq!(o.timeout_ms, u64::MAX);
}

#[test]
fn check_reintenta_hasta_agotar_los_intentos() {
    let o = ObjetivoIcmp::new(Some([10, 1, 2, 3]), 100);
    assert!(matches!(o.check(3, 0, None), PasoCheck::Ping { secuencia: 0 }));
    assert!(matches!(o.check(3, 2, None), PasoCheck::Ping { secuencia: 2 }));
    match o.check(3, 3, None) {
        PasoCheck::Fin(r) => {
            assert_eq!(r.host, "10.1.2.3");
            assert!(!r.arriba);
            assert_eq!(r.ttl, 0);
            assert_eq!(r.duracion_us, 0);
        }
        PasoCheck::Ping { .. } => panic!("no quedan intentos"),
    }
    match o.check(0, 0, None) {
        PasoCheck::Fin(r) => assert!(!r.arriba),
        PasoCheck::Ping { .. } => panic!("sin intentos no se envía nada"),
    }
}

#[test]
fn check_termina_con_el_primer_exito() {
    let o = ObjetivoIcmp::new(Some([10, 1, 2, 3]), 100);
    let exito = ResultadoHost { host: String::from("10.1.2.3"), arriba: true, duracion_us: 7, ttl: 60 };
    match o.check(3, 1, Some(exito)) {
        PasoCheck::Fin(r) => {
            assert!(r.arriba);
            assert_eq!(r.ttl, 60);
            assert_eq!(r.duracion_us, 7);
        }
        PasoCheck::Ping { .. } => panic!("tras un éxito no se reintenta"),
    }
}

use tamara::icmp::packet::{calcular_checksum, EchoRequest, IcmpV4, Proto};
use tamara::icmp::protocol::paquete_sondeo;

#[test]
fn test_contenido_tamara() {
    let checksum = calcular_checksum(&[8, 0, 0, 0, 0, 1, 0, 1, 84, 97, 109, 97, 114, 97]);
    assert_eq!(checksum, 50137);
}

#[test]
fn test_contenido_tamara_caso_real() {
    let checksum = calcular_checksum(&[8, 0, 0, 0, 0, 1, 0, 1, 84, 97, 109, 97, 114, 97]);
    assert_eq!(checksum, 50137);
}

#[test]
fn test_payload_a_tope() {
    let checksum = calcular_checksum(&[8, 0, 0, 0, 11, 185, 0, 2, 84, 97, 109, 97, 114, 97]);
    assert_eq!(checksum, 47136);
}

#[test]
fn checksum_de_mensaje_vacio_es_todo_unos() {
    assert_eq!(calcular_checksum(&[]), 0xffff);
}

#[test]
fn checksum_longitud_impar_rellena_con_cero() {
    assert_eq!(calcular_checksum(&[1, 2, 3]), 64509);
    assert_eq!(calcular_checksum(&[1, 2, 3, 0]), 64509);
}

#[test]
fn checksum_pliega_acarreos() {
    // 0xffff + 0xffff = 0x1fffe, que se pliega a 0xffff y se complementa a 0.
    assert_eq!(calcular_checksum(&[0xff, 0xff, 0xff, 0xff]), 0);
    // 0x8000 + 0x8000 = 0x10000, que se pliega a 1.
    assert_eq!(calcular_checksum(&[0x80, 0x00, 0x80, 0x00]), 0xfffe);
}

#[test]
fn constantes_de_icmpv4() {
    assert_eq!(IcmpV4::ECHO_REQUEST_TYPE, 8);
    assert_eq!(IcmpV4::ECHO_REQUEST_CODE, 0);
    assert_eq!(IcmpV4::ECHO_REPLY_TYPE, 0);
    assert_eq!(IcmpV4::ECHO_REPLY_CODE, 0);
}

#[test]
fn new_fija_identificador_y_secuencia() {
    let carga = [1u8, 2, 3];
    let r = EchoRequest::new(&carga);
    assert_eq!(r.identificador, 1);
    assert_eq!(r.numero_secuncia, 1);
    assert_eq!(r.carga, &carga[..]);
}

#[test]
fn encode_solicitud_de_la_sonda() {
    let carga = [65u8, 32, 84, 97, 109, 97, 114, 97];
    let paquete = EchoRequest::new(&carga).encode::<IcmpV4>(3001, 1).unwrap();
    assert_eq!(paquete, [8, 0, 119, 1, 11, 185, 0, 1, 65, 32, 84, 97, 109, 97, 114, 97]);
}

#[test]
fn encode_ignora_los_campos_de_la_solicitud() {
    let carga = [1u8, 2, 3];
    let mut r = EchoRequest::new(&carga);
    r.identificador = 77;
    r.numero_secuncia = 88;
    let paquete = r.encode::<IcmpV4>(0x1234, 0xabcd).unwrap();
    assert_eq!(paquete, [8, 0, 53, 252, 0x12, 0x34, 0xab, 0xcd, 1, 2, 3, 0, 0, 0, 0, 0]);
}

#[test]
fn encode_trunca_la_carga_a_ocho_bytes() {
    let carga: Vec<u8> = (0u8..20).collect();
    let paquete = EchoRequest::new(&carga).encode::<IcmpV4>(7, 9).unwrap();
    assert_eq!(paquete, [8, 0, 235, 223, 0, 7, 0, 9, 0, 1, 2, 3, 4, 5, 6, 7]);
}

#[test]
fn paquete_codificado_verifica_en_el_receptor() {
    let cargas: [&[u8]; 4] = [&[], &[0xff; 3], &[9, 8, 7, 6, 5, 4, 3, 2, 1], &[0; 8]];
    for carga in cargas {
        for (id, sec) in [(0u16, 0u16), (1, 1), (0xffff, 0xffff), (3001, 42)] {
            let paquete = EchoRequest::new(carga).encode::<IcmpV4>(id, sec).unwrap();
            assert_eq!(calcular_checksum(&paquete), 0);
        }
    }
}

#[test]
fn paquete_sondeo_usa_identificador_y_carga_fijos() {
    let paquete = paquete_sondeo(1).unwrap();
    assert_eq!(paquete, [8, 0, 119, 1, 11, 185, 0, 1, 65, 32, 84, 97, 109, 97, 114, 97]);
    let paquete = paquete_sondeo(2).unwrap();
    assert_eq!(&paquete[4..8], &[11, 185, 0, 2]);
    assert_eq!(calcular_checksum(&paquete), 0);
}

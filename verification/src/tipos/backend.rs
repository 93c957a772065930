use vstd::prelude::*;

use crate::tipos::configuracion::CfgConexionObjetivos;
use crate::tipos::direccion::DireccionIp;

verus! {

/// Un servidor que la sonda debe comprobar.
#[derive(Clone, Copy, Debug)]
pub struct Objetivo {
    pub id: i32,
    pub ip: DireccionIp,
    pub cfg_conexion: CfgConexionObjetivos,
}

/// El valor leído si lo hay; si no, el predeterminado.
pub open spec fn o_predeterminado<T>(leido: Option<T>, predeterminado: T) -> T {
    match leido {
        Some(v) => v,
        None => predeterminado,
    }
}

impl Objetivo {
    /// Un objetivo leído de la base de datos: `intentos` y `timeout` son las
    /// columnas de su configuración, ausentes (`None`) si son nulas o no se
    /// pudieron leer; en ese caso valen las de `predeterminados`.
    pub fn new(
        id: i32,
        ip: DireccionIp,
        intentos: Option<i16>,
        timeout: Option<i64>,
        predeterminados: &CfgConexionObjetivos,
    ) -> (r: Objetivo)
        ensures
            r.id == id,
            r.ip == ip,
            r.cfg_conexion.intentos == o_predeterminado(intentos, predeterminados.intentos),
            r.cfg_conexion.timeout == o_predeterminado(timeout, predeterminados.timeout),
    {
        let intentos: i16 = match intentos {
            Some(v) => v,
            None => predeterminados.intentos,
        };
        let timeout: i64 = match timeout {
            Some(v) => v,
            None => predeterminados.timeout,
        };
        let cfg_conexion = CfgConexionObjetivos { intentos, timeout };
        Objetivo { id, ip, cfg_conexion }
    }
}

} // verus!

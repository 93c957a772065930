use vstd::prelude::*;

use crate::tipos::configuracion::{CfgBackend, CfgConexionObjetivos};

verus! {

/// Las opciones de la línea de órdenes.
#[derive(Clone, Debug)]
pub struct Opciones {
    /// Nivel de verbosidad, acumulado (`-vvv`).
    pub verbosidad: u8,
    /// Directorio donde están los ficheros de configuración.
    pub directorio_configuracion: String,
    /// Si deben enviarse los resultados al backend.
    pub enviar: bool,
    /// Si la aplicación no muestra nada.
    pub quiet: bool,
}

/// Cuántas tareas concurrentes se usan en cada fase.
#[derive(Clone, Copy, Debug)]
pub struct Hilos {
    pub icmp: usize,
    pub backend: u32,
}

/// Dónde y con qué tiempo de espera (en milisegundos) se avisa a la API.
#[derive(Clone, Debug)]
pub struct Api {
    pub base_url: String,
    pub timeout: u64,
}

/// La configuración completa de la sonda; `identificador` es el valor de 128
/// bits del UUID de la sonda.
#[derive(Clone, Debug)]
pub struct Cfg {
    pub api: Api,
    pub identificador: u128,
    pub backend: CfgBackend,
    pub default_cfg_conexion: CfgConexionObjetivos,
    pub hilos: Hilos,
}

/// Valida la opción del directorio de configuración: se acepta si el
/// directorio existe (`existe`); si no, el error es
/// `"El directorio no existe"`.
pub fn validar_fichero(existe: bool) -> (r: Result<(), String>)
    ensures
        r is Ok <==> existe,
        r matches Err(e) ==> e@ == "El directorio no existe"@,
{
    match existe {
        true => Ok(()),
        false => Err(String::from_str("El directorio no existe")),
    }
}

/// La ruta del fichero de configuración dentro de `directorio`:
/// `<directorio>/backend.yaml`.
pub fn ruta_configuracion(directorio: &str) -> (r: String)
    ensures
        r@ == directorio@ + "/backend.yaml"@,
{
    let mut s = String::from_str(directorio);
    s.append("/backend.yaml");
    s
}

} // verus!

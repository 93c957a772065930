use vstd::prelude::*;

verus! {

/// Error de E/S de la biblioteca estándar, que los errores de la sonda llevan
/// dentro sin examinarlo.
#[verifier::external_type_specification]
#[verifier::external_body]
pub struct ExErrorEs(std::io::Error);

/// Error de formato del lector YAML, que los errores de configuración llevan
/// dentro sin examinarlo.
#[verifier::external_type_specification]
#[verifier::external_body]
pub struct ExErrorYaml(serde_yaml::Error);

/// Error del cliente de PostgreSQL, que los errores de envío llevan dentro
/// sin examinarlo.
#[verifier::external_type_specification]
#[verifier::external_body]
pub struct ExErrorPostgres(tokio_postgres::Error);

/// Fallos al leer la configuración.
#[derive(Debug)]
#[allow(inconsistent_fields)]
pub enum OpcionesError {
    /// El fichero de configuración no se pudo abrir.
    FicheroError { error: std::io::Error },
    /// El fichero no tiene el formato esperado.
    FormatoError { error: serde_yaml::Error },
}

/// Fallos al hablar con el backend.
#[derive(Debug)]
pub enum TamaraBackendError {
    /// La base de datos rechazó el envío.
    EnvioError { error: tokio_postgres::Error },
    /// La API no confirmó la recepción del aviso.
    RecepcionWebError,
}

} // verus!

//! The library's error type and the text each error is shown with.
use crate::text::{decimal, decimal_string};
use vstd::prelude::*;

verus! {

/// Declares `std::io::Error` so that an I/O failure can be carried as an error.
#[verifier::external_type_specification]
#[verifier::external_body]
pub struct ExIoError(std::io::Error);

/// Declares `anyhow::Error` so that any other failure can be carried as an error.
#[verifier::external_type_specification]
#[verifier::external_body]
pub struct ExAnyhowError(anyhow::Error);

/// The errors of the synchroniser.
#[derive(Debug)]
pub enum RustDriveSyncError {
    ConfigNotFound { path: String },
    ConfigInvalid { message: String },
    AuthenticationFailed { message: String },
    TokenExpired,
    CredentialsNotFound { path: String },
    NetworkError { message: String },
    RateLimitExceeded { retry_after: u64 },
    RequestTimeout,
    FileNotFound { path: String },
    FileReadError { path: String, message: String },
    PermissionDenied { path: String },
    FileTooLarge { size: u64, max_size: u64 },
    DriveFolderNotFound { folder_id: String },
    DriveQuotaExceeded,
    DriveApiError { message: String },
    UploadFailed { attempts: u32, message: String },
    ChecksumMismatch { file: String, expected: String, actual: String },
    IntegrityCheckFailed { path: String },
    StateError { message: String },
    IoError(std::io::Error),
    Other(anyhow::Error),
}

/// Results of the synchroniser.
pub type Result<T> = std::result::Result<T, RustDriveSyncError>;

/// The text shown for an error whose fields are all plain values; `None` for the two
/// variants that carry an outside error, whose text comes from that error.
pub open spec fn error_text(e: RustDriveSyncError) -> Option<Seq<char>> {
    match e {
        RustDriveSyncError::ConfigNotFound { path } => Some(
            "Arquivo de configuração não encontrado: "@ + path@,
        ),
        RustDriveSyncError::ConfigInvalid { message } => Some(
            "Configuração inválida: "@ + message@,
        ),
        RustDriveSyncError::AuthenticationFailed { message } => Some(
            "Falha na autenticação: "@ + message@,
        ),
        RustDriveSyncError::TokenExpired => Some(
            "Token expirado e não foi possível renovar"@,
        ),
        RustDriveSyncError::CredentialsNotFound { path } => Some(
            "Credenciais não encontradas: "@ + path@,
        ),
        RustDriveSyncError::NetworkError { message } => Some("Erro de conexão: "@ + message@),
        RustDriveSyncError::RateLimitExceeded { retry_after } => Some(
            "Rate limit excedido. Aguarde "@ + decimal(retry_after as nat) + " segundos"@,
        ),
        RustDriveSyncError::RequestTimeout => Some("Timeout na requisição"@),
        RustDriveSyncError::FileNotFound { path } => Some("Arquivo não encontrado: "@ + path@),
        RustDriveSyncError::FileReadError { path, message } => Some(
            "Erro ao ler arquivo "@ + path@ + ": "@ + message@,
        ),
        RustDriveSyncError::PermissionDenied { path } => Some("Permissão negada: "@ + path@),
        RustDriveSyncError::FileTooLarge { size, max_size } => Some(
            "Arquivo muito grande: "@ + decimal(size as nat) + " bytes (máximo: "@ + decimal(
                max_size as nat,
            ) + " bytes)"@,
        ),
        RustDriveSyncError::DriveFolderNotFound { folder_id } => Some(
            "Pasta de destino não encontrada no Drive: "@ + folder_id@,
        ),
        RustDriveSyncError::DriveQuotaExceeded => Some("Cota do Google Drive excedida"@),
        RustDriveSyncError::DriveApiError { message } => Some(
            "Erro da API do Google Drive: "@ + message@,
        ),
        RustDriveSyncError::UploadFailed { attempts, message } => Some(
            "Upload falhou após "@ + decimal(attempts as nat) + " tentativas: "@ + message@,
        ),
        RustDriveSyncError::ChecksumMismatch { file, expected, actual } => Some(
            "Checksum MD5 não corresponde para "@ + file@ + ": esperado "@ + expected@
                + ", obtido "@ + actual@,
        ),
        RustDriveSyncError::IntegrityCheckFailed { path } => Some(
            "Verificação de integridade falhou para: "@ + path@,
        ),
        RustDriveSyncError::StateError { message } => Some(
            "Erro no gerenciamento de estado: "@ + message@,
        ),
        RustDriveSyncError::IoError(_) => None,
        RustDriveSyncError::Other(_) => None,
    }
}

/// The text of an I/O error, as its `Display` implementation writes it.
/// Nothing is stated of the text: for an error from the operating system it depends on
/// the system.
#[verifier::external_body]
fn io_error_text(e: &std::io::Error) -> String {
    e.to_string()
}

/// The text of an `anyhow::Error`, as its `Display` implementation writes it (the outermost
/// context only). Nothing is stated of the text.
#[verifier::external_body]
fn anyhow_error_text(e: &anyhow::Error) -> String {
    e.to_string()
}

/// `prefix` followed by `rest`.
fn joined(prefix: &str, rest: &str) -> (r: String)
    ensures
        r@ == prefix@ + rest@,
{
    let mut s = String::from_str(prefix);
    s.append(rest);
    s
}

impl RustDriveSyncError {
    /// The text that describes this error to the user.
    pub fn message(&self) -> (r: String)
        ensures
            error_text(*self) matches Some(t) ==> r@ == t,
            self is IoError ==> r@.subrange(0, "Erro de I/O: "@.len() as int) == "Erro de I/O: "@,
            self is Other ==> r@.subrange(0, "Erro: "@.len() as int) == "Erro: "@,
    {
        match self {
            RustDriveSyncError::ConfigNotFound { path } => joined(
                "Arquivo de configuração não encontrado: ",
                path.as_str(),
            ),
            RustDriveSyncError::ConfigInvalid { message } => joined(
                "Configuração inválida: ",
                message.as_str(),
            ),
            RustDriveSyncError::AuthenticationFailed { message } => joined(
                "Falha na autenticação: ",
                message.as_str(),
            ),
            RustDriveSyncError::TokenExpired => String::from_str(
                "Token expirado e não foi possível renovar",
            ),
            RustDriveSyncError::CredentialsNotFound { path } => joined(
                "Credenciais não encontradas: ",
                path.as_str(),
            ),
            RustDriveSyncError::NetworkError { message } => joined(
                "Erro de conexão: ",
                message.as_str(),
            ),
            RustDriveSyncError::RateLimitExceeded { retry_after } => {
                let mut s = joined(
                    "Rate limit excedido. Aguarde ",
                    decimal_string(*retry_after).as_str(),
                );
                s.append(" segundos");
                s
            },
            RustDriveSyncError::RequestTimeout => String::from_str("Timeout na requisição"),
            RustDriveSyncError::FileNotFound { path } => joined(
                "Arquivo não encontrado: ",
                path.as_str(),
            ),
            RustDriveSyncError::FileReadError { path, message } => {
                let mut s = joined("Erro ao ler arquivo ", path.as_str());
                s.append(": ");
                s.append(message.as_str());
                s
            },
            RustDriveSyncError::PermissionDenied { path } => joined(
                "Permissão negada: ",
                path.as_str(),
            ),
            RustDriveSyncError::FileTooLarge { size, max_size } => {
                let mut s = joined("Arquivo muito grande: ", decimal_string(*size).as_str());
                s.append(" bytes (máximo: ");
                s.append(decimal_string(*max_size).as_str());
                s.append(" bytes)");
                s
            },
            RustDriveSyncError::DriveFolderNotFound { folder_id } => joined(
                "Pasta de destino não encontrada no Drive: ",
                folder_id.as_str(),
            ),
            RustDriveSyncError::DriveQuotaExceeded => String::from_str(
                "Cota do Google Drive excedida",
            ),
            RustDriveSyncError::DriveApiError { message } => joined(
                "Erro da API do Google Drive: ",
                message.as_str(),
            ),
            RustDriveSyncError::UploadFailed { attempts, message } => {
                let mut s = joined(
                    "Upload falhou após ",
                    decimal_string(*attempts as u64).as_str(),
                );
                s.append(" tentativas: ");
                s.append(message.as_str());
                s
            },
            RustDriveSyncError::ChecksumMismatch { file, expected, actual } => {
                let mut s = joined("Checksum MD5 não corresponde para ", file.as_str());
                s.append(": esperado ");
                s.append(expected.as_str());
                s.append(", obtido ");
                s.append(actual.as_str());
                s
            },
            RustDriveSyncError::IntegrityCheckFailed { path } => joined(
                "Verificação de integridade falhou para: ",
                path.as_str(),
            ),
            RustDriveSyncError::StateError { message } => joined(
                "Erro no gerenciamento de estado: ",
                message.as_str(),
            ),
            RustDriveSyncError::IoError(e) => {
                let s = joined("Erro de I/O: ", io_error_text(e).as_str());
                assert(s@.subrange(0, "Erro de I/O: "@.len() as int) =~= "Erro de I/O: "@);
                s
            },
            RustDriveSyncError::Other(e) => {
                let s = joined("Erro: ", anyhow_error_text(e).as_str());
                assert(s@.subrange(0, "Erro: "@.len() as int) =~= "Erro: "@);
                s
            },
        }
    }
}

impl From<std::io::Error> for RustDriveSyncError {
    fn from(e: std::io::Error) -> (r: Self) {
        RustDriveSyncError::IoError(e)
    }
}

impl vstd::std_specs::convert::FromSpecImpl<std::io::Error> for RustDriveSyncError {
    open spec fn obeys_from_spec() -> bool {
        true
    }

    open spec fn from_spec(e: std::io::Error) -> Self {
        RustDriveSyncError::IoError(e)
    }
}

impl From<anyhow::Error> for RustDriveSyncError {
    fn from(e: anyhow::Error) -> (r: Self) {
        RustDriveSyncError::Other(e)
    }
}

impl vstd::std_specs::convert::FromSpecImpl<anyhow::Error> for RustDriveSyncError {
    open spec fn obeys_from_spec() -> bool {
        true
    }

    open spec fn from_spec(e: anyhow::Error) -> Self {
        RustDriveSyncError::Other(e)
    }
}

} // verus!

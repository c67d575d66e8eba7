pub mod json;
pub mod text;
pub mod cli;
pub mod report;
pub mod validator;
pub mod output;
pub mod markdown;
pub mod html;
pub mod summary;
pub mod structured;
pub mod cert;
pub mod cert_json;
pub mod cert_x509;
pub mod cert_view;
pub mod x509;

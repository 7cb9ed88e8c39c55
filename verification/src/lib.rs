//! Keys, keystore and settings of an HTTP gateway in front of Ollama.

pub mod text;
pub mod error;
pub mod sealing;
pub mod encoding;
pub mod origin;
pub mod hashing;
pub mod auth;
pub mod paths;
pub mod keystore;
pub mod dotenv_loader;
pub mod keygen;
pub mod gateway;

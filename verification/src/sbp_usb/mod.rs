pub mod deserializer;
pub mod handler;
pub mod message;
pub mod opcode;
pub mod permissions;
pub mod request;
pub mod response;
pub mod serializer;

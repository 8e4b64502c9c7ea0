//! Safe, verified model of a TEE client protocol: identifiers, the error
//! taxonomy, parameter marshaling, the context/session lifecycle, and the
//! plugin invocation contract of a supplicant daemon.

pub mod context;
pub mod error;
pub mod extension;
pub mod operation;
pub mod parameter;
pub mod session;
pub mod uuid;

pub use self::context::Context;
pub use self::error::{Error, ErrorKind, ErrorOrigin, Result};
pub use self::extension::{
    check_init_shape, check_invoke_shape, plugin_init_entry, plugin_invoke_entry,
    write_back_output, FnSignatureShape, PluginDescriptor, PluginHandler, PluginParameters,
};
pub use self::operation::Operation;
pub use self::parameter::{
    Param, ParamDirection, ParamNone, ParamTmpRef, ParamType, ParamTypes, ParamValue,
};
pub use self::session::{ConnectionMethods, InvokeCommandReply, OpenSessionReply, Session};
pub use self::uuid::Uuid;

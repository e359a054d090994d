//! Swift source templates for the rendering plan, and the emitter that puts a whole
//! file together.

pub mod preamble;
pub mod record;
pub mod enums;
pub mod function;
pub mod callback;
pub mod class;
pub mod emitter;

pub use callback::{render_callback, CallbackTemplate};
pub use class::{render_class, ClassTemplate};
pub use emitter::SwiftEmitter;
pub use enums::{render_enum, EnumCStyleTemplate, EnumDataTemplate};
pub use function::{render_function, FunctionTemplate};
pub use preamble::{render_preamble, PreambleTemplate};
pub use record::{render_record, RecordTemplate};

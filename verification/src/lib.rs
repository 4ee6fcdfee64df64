//! Versioned bindings to the in-application API of the RenderDoc graphics
//! debugger, written as a protocol core.
//!
//! The debugger is a shared library. A program loads it, asks its one entry
//! point for a table of functions of at least some revision, and from then on
//! calls through that table. All of that is foreign code, and none of it is
//! called here. This crate holds what has to be right around those calls: which
//! revision is asked for and which table shape answers it, in which order the
//! steps of loading come and on what they fail, what each operation hands
//! across the boundary, and what each answer means. The embedding program
//! makes the calls that these functions describe and hands back what they
//! returned.

pub mod call;
pub mod capture_option;
pub mod entry;
pub mod input;
pub mod instance;
pub mod library;
pub mod load;
pub mod overlay;
pub mod reply;
pub mod shader;
pub mod text;
pub mod version;

pub use crate::call::{Call, DevicePointer, Request, WindowHandle};
pub use crate::capture_option::CaptureOption;
pub use crate::entry::{EntryV100, EntryV110, Slot};
pub use crate::input::InputButton;
pub use crate::instance::{RenderDoc, RenderDocV100, RenderDocV110};
pub use crate::library::LibraryHandle;
pub use crate::load::{ApiVersion, LoadError, Negotiated, Negotiation, Resolution, Start, V100, V110};
pub use crate::overlay::OverlayBits;
pub use crate::reply::Misuse;
pub use crate::shader::{SHADER_MAGIC_DEBUG_VALUE_BYTE_ARRAY, SHADER_MAGIC_DEBUG_VALUE_TRUNCATED};
pub use crate::version::{Tier, Version};

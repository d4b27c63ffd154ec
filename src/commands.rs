//! Command-set, command, event-kind and modifier numbers of the protocol.

pub mod command_sets;
pub mod vm_commands;
pub mod reference_type_commands;
pub mod method_commands;
pub mod object_reference_commands;
pub mod string_reference_commands;
pub mod thread_commands;
pub mod event_commands;
pub mod stack_frame_commands;
pub mod event_composite_commands;
pub mod event_kinds;
pub mod modifier_kinds;
pub mod step_sizes;
pub mod step_depths;

//! A session registry for server-side view state.
//!
//! Many independent, stateful resources (each backing one interactive view)
//! are looked up by an opaque string identifier and mutated by single-threaded
//! action requests that may arrive concurrently.  The registry guarantees
//! that no two operations ever own the same resource at once, using a
//! busy/idle slot-swap protocol, while an operation in progress on one
//! resource never blocks progress on any other resource.
//!
//! Inside that envelope, each resource routes `(widget id, action type,
//! payload)` triples through a typed view-binding mechanism to a mutation of
//! its private view model, and renders that view model back into a
//! two-level string-keyed parameter map.

mod ids;
pub mod mvvm_core;
pub mod params;
pub mod registry;
pub mod strings;
pub mod table;
pub mod user_example;

pub use mvvm_core::ASType;
pub use mvvm_core::ASView;
pub use mvvm_core::ASViewModel;
pub use mvvm_core::ASWidget;
pub use mvvm_core::ActionError;
pub use mvvm_core::ActionFailure;
pub use mvvm_core::Button;
pub use mvvm_core::ResourceManager;
pub use mvvm_core::TextBox;
pub use mvvm_core::WidgetKind;
pub use params::ParamMap;
pub use params::WidgetsData;
pub use registry::RegistryError;
pub use registry::RegistryFailure;
pub use registry::ResourceRegistry;
pub use registry::ResourceSlot;
pub use user_example::ExampleResourceManager;
pub use user_example::ExampleView;
pub use user_example::ExampleViewModel;
pub use user_example::PROJ_ADD_VALUE;
pub use user_example::PROJ_GET_CUSTOM_NUMBER;

pub use strings::dec_digits;
pub use strings::u32_to_string;

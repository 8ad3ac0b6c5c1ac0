//! Rendering and transport core for small external displays driven over USB
//! (raw bulk or serial) or WiFi (websocket).
//!
//! - `telemetry`: the shared cache of system metrics, its watch flags, the
//!   accessors that format metrics for widgets, and the polling schedule.
//! - `widgets`, `screen`: the widget model, text resolution, layout into draw
//!   operations, and the persisted document with its legacy schema.
//! - `protocol`, `devices`, `frame_loop`, `wifi`: the wire format, device
//!   discovery and binding, frame pacing, and the WiFi worker's decisions.
//! - `rect`, `rgb565`, `yuv422`, `text`: geometry, pixel formats and string helpers.
pub mod text;
pub mod rgb565;
pub mod yuv422;
pub mod rect;
pub mod telemetry;
pub mod protocol;
pub mod devices;
pub mod wifi;
pub mod widgets;
pub mod screen;
pub mod frame_loop;

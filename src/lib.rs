//! Sensor-facing control logic for a multi-port input device: frame transport
//! with CRC checking, the MLX90363 request/reply codec, per-port detection and
//! recovery, the sensor driver's parameter bootstrap and output shaping, and the
//! bounded outbound event queue.
pub mod util;
pub mod spi_protocol;
pub mod mlx90363;
pub mod negicon_event;
pub mod mlx_downstream;
pub mod spi_downstream;
pub mod ringbuf;
pub mod upstream;
pub mod negicon_encoder;

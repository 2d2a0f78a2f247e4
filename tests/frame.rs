use fractal_viewer::reloadable::Reloadable;
use fractal_viewer::timing::{FpsSample, FrameClock, FPS_LOG_INTERVAL_NANOS};
use fractal_viewer::uniform_block::{UniformBlock, UNIFORM_BLOCK_SIZE};

#[test]
fn frame_clock_reports_deltas() {
    let mut clock = FrameClock::init(1_000);
    let tick = clock.update(17_000);
    assert_eq!(tick.delta_nanos, 16_000);
    assert_eq!(tick.fps_sample, None);
    assert_eq!(clock.last_frame(), 17_000);
    let tick = clock.update(17_000);
    assert_eq!(tick.delta_nanos, 0);
}

#[test]
fn frame_clock_samples_once_per_interval() {
    let mut clock = FrameClock::init(0);
    let step = FPS_LOG_INTERVAL_NANOS / 4;
    assert_eq!(clock.update(step).fps_sample, None);
    assert_eq!(clock.update(2 * step).fps_sample, None);
    assert_eq!(clock.update(3 * step).fps_sample, None);
    let sample = clock.update(4 * step).fps_sample;
    assert_eq!(sample, Some(FpsSample { frames: 4, elapsed_nanos: FPS_LOG_INTERVAL_NANOS }));
    assert_eq!(clock.update(5 * step).fps_sample, None);
    let late = clock.update(4 * step + FPS_LOG_INTERVAL_NANOS + 7).fps_sample;
    assert_eq!(late, Some(FpsSample { frames: 2, elapsed_nanos: FPS_LOG_INTERVAL_NANOS + 7 }));
}

#[test]
fn failed_reload_keeps_active_generation() {
    let mut slot: Reloadable<&str> = Reloadable::new("first");
    let result: Result<u64, String> = slot.commit(Err("expected `;`".to_string()));
    assert_eq!(result, Err("expected `;`".to_string()));
    assert_eq!(*slot.active(), "first");
    assert_eq!(slot.generation(), 0);
}

#[test]
fn successful_reload_replaces_active_generation() {
    let mut slot: Reloadable<&str> = Reloadable::new("first");
    let result: Result<u64, String> = slot.commit(Ok("second"));
    assert_eq!(result, Ok(1));
    assert_eq!(*slot.active(), "second");
    let failed: Result<u64, &str> = slot.commit(Err("bad"));
    assert!(failed.is_err());
    assert_eq!(*slot.active(), "second");
    assert_eq!(slot.generation(), 1);
}

#[test]
fn uniform_block_layout() {
    let mut block = UniformBlock::zeroed();
    block.camera_matrix[0] = 1.0f32.to_bits();
    block.camera_matrix[15] = 0x0102_0304;
    block.aspect_scale = [(1920.0f32 / 1080.0).to_bits(), 1.0f32.to_bits()];
    block.time = 2.5f32.to_bits();
    block.num_iterations = 300;
    block.scene_index = 2;
    let bytes = block.to_bytes();
    assert_eq!(bytes.len(), UNIFORM_BLOCK_SIZE);
    assert_eq!(bytes.len() % 16, 0);
    assert_eq!(&bytes[0..4], &1.0f32.to_le_bytes());
    assert_eq!(&bytes[60..64], &[4, 3, 2, 1]);
    assert_eq!(&bytes[64..68], &(1920.0f32 / 1080.0).to_le_bytes());
    assert_eq!(&bytes[68..72], &1.0f32.to_le_bytes());
    assert_eq!(&bytes[72..76], &2.5f32.to_le_bytes());
    assert_eq!(&bytes[76..80], &300u32.to_le_bytes());
    assert_eq!(&bytes[80..84], &2u32.to_le_bytes());
    assert!(bytes[84..96].iter().all(|b| *b == 0));
}

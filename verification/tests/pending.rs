use command_queue::{Command, Extent3d, Pending, RenderContext, RenderResource};

/// A render context that writes down which operation was called, and with what.
struct Recorder {
    calls: Vec<String>,
}

impl Recorder {
    fn new() -> Recorder {
        Recorder { calls: Vec::new() }
    }
}

impl RenderContext for Recorder {
    fn copy_buffer_to_buffer(
        &mut self,
        source_buffer: RenderResource,
        source_offset: u64,
        destination_buffer: RenderResource,
        destination_offset: u64,
        size: u64,
    ) {
        self.calls.push(format!(
            "buffer {} {} {} {} {}",
            source_buffer.0, source_offset, destination_buffer.0, destination_offset, size
        ));
    }

    fn copy_buffer_to_texture(
        &mut self,
        source_buffer: RenderResource,
        source_offset: u64,
        source_bytes_per_row: u32,
        destination_texture: RenderResource,
        destination_origin: [u32; 3],
        destination_mip_level: u32,
        destination_array_layer: u32,
        size: Extent3d,
    ) {
        self.calls.push(format!(
            "texture {} {} {} {} {:?} {} {} {}x{}x{}",
            source_buffer.0,
            source_offset,
            source_bytes_per_row,
            destination_texture.0,
            destination_origin,
            destination_mip_level,
            destination_array_layer,
            size.width,
            size.height,
            size.depth
        ));
    }

    fn remove_buffer(&mut self, buffer: RenderResource) {
        self.calls.push(format!("remove {}", buffer.0));
    }
}

fn flushed(pending: &mut Pending) -> Vec<String> {
    let mut recorder = Recorder::new();
    pending.execute(&mut recorder);
    recorder.calls
}

#[test]
fn new_pending_holds_nothing() {
    let mut pending = Pending::new();
    assert!(flushed(&mut pending).is_empty());
}

#[test]
fn push_appends_at_the_tail() {
    let mut pending = Pending::new();
    pending.push(Command::FreeBuffer(RenderResource(1)));
    pending.push(Command::FreeBuffer(RenderResource(2)));
    pending.push(Command::FreeBuffer(RenderResource(3)));
    assert_eq!(
        flushed(&mut pending),
        vec!["remove 1".to_string(), "remove 2".to_string(), "remove 3".to_string()]
    );
}

#[test]
fn push_takes_a_command_of_each_kind() {
    let mut pending = Pending::new();
    pending.push(Command::CopyBufferToTexture {
        source_buffer: RenderResource(6),
        source_offset: 7,
        source_bytes_per_row: 8,
        destination_texture: RenderResource(9),
        destination_origin: [10, 11, 12],
        destination_mip_level: 13,
        destination_array_layer: 14,
        size: Extent3d { width: 15, height: 16, depth: 17 },
    });
    pending.push(Command::CopyBufferToBuffer {
        source_buffer: RenderResource(1),
        source_offset: 2,
        destination_buffer: RenderResource(3),
        destination_offset: 4,
        size: 5,
    });
    assert_eq!(
        flushed(&mut pending),
        vec![
            "texture 6 7 8 9 [10, 11, 12] 13 14 15x16x17".to_string(),
            "buffer 1 2 3 4 5".to_string(),
        ]
    );
}

#[test]
fn typed_recording_reaches_the_matching_operation() {
    let mut pending = Pending::new();
    pending.copy_buffer_to_buffer(RenderResource(1), 2, RenderResource(3), 4, 5);
    pending.copy_buffer_to_texture(
        RenderResource(6),
        7,
        8,
        RenderResource(9),
        [10, 11, 12],
        13,
        14,
        Extent3d { width: 15, height: 16, depth: 17 },
    );
    pending.free_buffer(RenderResource(18));

    assert_eq!(
        flushed(&mut pending),
        vec![
            "buffer 1 2 3 4 5".to_string(),
            "texture 6 7 8 9 [10, 11, 12] 13 14 15x16x17".to_string(),
            "remove 18".to_string(),
        ]
    );
}

#[test]
fn execute_leaves_nothing_pending() {
    let mut pending = Pending::new();
    pending.free_buffer(RenderResource(1));
    pending.free_buffer(RenderResource(2));
    assert_eq!(flushed(&mut pending).len(), 2);
    assert!(flushed(&mut pending).is_empty());
}

#[test]
fn execute_of_nothing_calls_nothing() {
    let mut pending = Pending::new();
    let mut recorder = Recorder::new();
    pending.execute(&mut recorder);
    pending.execute(&mut recorder);
    assert!(recorder.calls.is_empty());
}

#[test]
fn execute_keeps_equal_commands_apart() {
    let mut pending = Pending::new();
    pending.free_buffer(RenderResource(4));
    pending.free_buffer(RenderResource(4));
    pending.free_buffer(RenderResource(4));
    assert_eq!(
        flushed(&mut pending),
        vec!["remove 4".to_string(), "remove 4".to_string(), "remove 4".to_string()]
    );
}

#[test]
fn execute_adds_behind_earlier_calls() {
    let mut pending = Pending::new();
    pending.free_buffer(RenderResource(2));
    let mut recorder = Recorder { calls: vec!["remove 1".to_string()] };
    pending.execute(&mut recorder);
    assert_eq!(recorder.calls, vec!["remove 1".to_string(), "remove 2".to_string()]);
}

#[test]
fn take_moves_everything_out_in_order() {
    let mut pending = Pending::new();
    pending.free_buffer(RenderResource(1));
    pending.copy_buffer_to_buffer(RenderResource(2), 0, RenderResource(3), 0, 8);
    pending.free_buffer(RenderResource(4));

    let mut taken = pending.take();

    assert!(flushed(&mut pending).is_empty());
    assert_eq!(
        flushed(&mut taken),
        vec!["remove 1".to_string(), "buffer 2 0 3 0 8".to_string(), "remove 4".to_string()]
    );
}

#[test]
fn take_of_nothing_is_nothing() {
    let mut pending = Pending::new();
    let mut taken = pending.take();
    assert!(flushed(&mut taken).is_empty());
    assert!(flushed(&mut pending).is_empty());
}

#[test]
fn take_twice_gives_nothing_the_second_time() {
    let mut pending = Pending::new();
    pending.free_buffer(RenderResource(1));
    let mut first = pending.take();
    let mut second = pending.take();
    assert_eq!(flushed(&mut first), vec!["remove 1".to_string()]);
    assert!(flushed(&mut second).is_empty());
}

#[test]
fn pending_takes_pushes_again_after_take() {
    let mut pending = Pending::new();
    pending.free_buffer(RenderResource(1));
    let mut taken = pending.take();
    pending.free_buffer(RenderResource(2));
    assert_eq!(flushed(&mut taken), vec!["remove 1".to_string()]);
    assert_eq!(flushed(&mut pending), vec!["remove 2".to_string()]);
}

#[test]
fn each_command_is_dispatched_once_over_pushes_and_flushes() {
    let mut pending = Pending::new();
    let mut recorder = Recorder::new();
    pending.free_buffer(RenderResource(1));
    pending.execute(&mut recorder);
    pending.free_buffer(RenderResource(2));
    pending.free_buffer(RenderResource(3));
    pending.execute(&mut recorder);
    pending.execute(&mut recorder);
    assert_eq!(
        recorder.calls,
        vec!["remove 1".to_string(), "remove 2".to_string(), "remove 3".to_string()]
    );
}

#[test]
fn handles_compare_by_their_number() {
    assert_eq!(RenderResource(5), RenderResource(5));
    assert_ne!(RenderResource(5), RenderResource(6));
    let handle = RenderResource(5);
    let copy = handle;
    assert_eq!(handle, copy);
}

#[test]
fn extents_compare_by_their_sides() {
    let extent = Extent3d { width: 1, height: 2, depth: 3 };
    let copy = extent;
    assert_eq!(extent, copy);
    assert_ne!(extent, Extent3d { width: 1, height: 2, depth: 4 });
    assert_ne!(extent, Extent3d { width: 1, height: 3, depth: 3 });
    assert_ne!(extent, Extent3d { width: 2, height: 2, depth: 3 });
}

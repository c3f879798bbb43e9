use creek::backends::io_vulkanwinit::swapchain::{choose_present_mode, next_graphics_family, queue_search_step, QueueSearch, QUEUE_GRAPHICS_BIT, command_buffer_count, desired_image_count, pre_transform, select_queue_family, split_command_buffers, surface_resolution, Extent2D, QueueFamily, SurfaceCapabilities, MAX_FRAME_LATENCY, PRESENT_MODE_FIFO, PRESENT_MODE_MAILBOX, SURFACE_TRANSFORM_IDENTITY};

fn caps(min: u32, max: u32, w: u32, h: u32, supported: u32, current: u32) -> SurfaceCapabilities {
    SurfaceCapabilities {
        min_image_count: min,
        max_image_count: max,
        current_extent: Extent2D { width: w, height: h },
        supported_transforms: supported,
        current_transform: current,
    }
}

#[test]
fn image_count_is_one_above_minimum_within_maximum() {
    assert_eq!(desired_image_count(&caps(2, 0, 1, 1, 1, 1)), 3);
    assert_eq!(desired_image_count(&caps(2, 8, 1, 1, 1, 1)), 3);
    assert_eq!(desired_image_count(&caps(3, 3, 1, 1, 1, 1)), 3);
    assert_eq!(desired_image_count(&caps(1, 1, 1, 1, 1, 1)), 1);
}

#[test]
fn resolution_follows_window_when_surface_leaves_it_open() {
    assert_eq!(surface_resolution(&caps(2, 0, u32::MAX, u32::MAX, 1, 1), 1920, 1080), Extent2D { width: 1920, height: 1080 });
    assert_eq!(surface_resolution(&caps(2, 0, 800, 600, 1, 1), 1920, 1080), Extent2D { width: 800, height: 600 });
}

#[test]
fn identity_transform_preferred() {
    assert_eq!(pre_transform(&caps(2, 0, 1, 1, 0b11, 0b10)), SURFACE_TRANSFORM_IDENTITY);
    assert_eq!(pre_transform(&caps(2, 0, 1, 1, 0b110, 0b10)), 0b10);
}

#[test]
fn mailbox_preferred_over_fifo() {
    assert_eq!(choose_present_mode(&vec![0, 2, 1]), PRESENT_MODE_MAILBOX);
    assert_eq!(choose_present_mode(&vec![0, 2, 3]), PRESENT_MODE_FIFO);
    assert_eq!(choose_present_mode(&vec![]), PRESENT_MODE_FIFO);
}

fn fam(flags: u32, surface: bool) -> QueueFamily {
    QueueFamily { queue_flags: flags, supports_surface: surface }
}

#[test]
fn first_device_with_graphics_and_presentation() {
    let devices = vec![
        vec![fam(0b100, true), fam(0b001, false)],
        vec![fam(0b010, true), fam(0b011, true), fam(0b001, true)],
        vec![fam(0b001, true)],
    ];
    assert_eq!(select_queue_family(&devices), Some((1, 1)));
}

#[test]
fn no_device_qualifies() {
    assert_eq!(select_queue_family(&vec![]), None);
    assert_eq!(select_queue_family(&vec![vec![], vec![fam(0b001, false)], vec![fam(0b110, true)]]), None);
}

#[test]
fn command_buffers_are_split_into_setup_app_setup_and_draw() {
    assert_eq!(command_buffer_count(), 3);
    let (setup, app_setup, draw) = split_command_buffers(&vec![10u64, 11, 12]);
    assert_eq!(setup, 10);
    assert_eq!(app_setup, 11);
    assert_eq!(draw, vec![12]);
    let (_, _, draw) = split_command_buffers(&vec![1u64, 2, 3, 4]);
    assert_eq!(draw.len(), MAX_FRAME_LATENCY);
}

#[test]
fn graphics_families_are_visited_in_order() {
    let g = QUEUE_GRAPHICS_BIT;
    let flags: Vec<Vec<u32>> = vec![vec![0, g | 4], vec![], vec![8, g, g]];
    assert_eq!(next_graphics_family(&flags, 0, 0), Some((0, 1)));
    assert_eq!(next_graphics_family(&flags, 0, 1), Some((0, 1)));
    assert_eq!(next_graphics_family(&flags, 0, 2), Some((2, 1)));
    assert_eq!(next_graphics_family(&flags, 2, 2), Some((2, 2)));
    assert_eq!(next_graphics_family(&flags, 2, 3), None);
    assert_eq!(next_graphics_family(&flags, 3, 0), None);
    assert_eq!(next_graphics_family(&vec![vec![0, 2]], 0, 0), None);
}

#[test]
fn queue_search_asks_graphics_families_in_order_until_one_presents() {
    let g = QUEUE_GRAPHICS_BIT;
    let flags: Vec<Vec<u32>> = vec![vec![0, g | 4], vec![], vec![8, g, g]];
    assert_eq!(queue_search_step(&flags, None), QueueSearch::Ask(0, 1));
    assert_eq!(queue_search_step(&flags, Some((0, 1, false))), QueueSearch::Ask(2, 1));
    assert_eq!(queue_search_step(&flags, Some((2, 1, false))), QueueSearch::Ask(2, 2));
    assert_eq!(queue_search_step(&flags, Some((2, 2, true))), QueueSearch::Found(2, 2));
    assert_eq!(queue_search_step(&flags, Some((2, 2, false))), QueueSearch::Exhausted);
    assert_eq!(queue_search_step(&flags, Some((0, 1, true))), QueueSearch::Found(0, 1));
}

#[test]
fn queue_search_without_graphics_is_exhausted_at_once() {
    assert_eq!(queue_search_step(&vec![vec![2, 4], vec![]], None), QueueSearch::Exhausted);
    assert_eq!(queue_search_step(&Vec::new(), None), QueueSearch::Exhausted);
}


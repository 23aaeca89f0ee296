use txkit::context::Context;
use txkit::context::GpuHandles;
use txkit::error::Error;
use txkit::error::ImageCreationError;
use txkit::error::ImageDataError;
use txkit::gl::GlCommand;
use txkit::image::gpu::GpuImageData;
use txkit::image::gpu::MapAction;
use txkit::image::gpu::MapEvent;
use txkit::image::gpu::Phase;
use txkit::image::gpu::SyncAction;
use txkit::image::gpu::SyncEvent;
use txkit::image::gpu::TextureRequest;
use txkit::image::gpu::TRANSFER_WAIT_NS;
use txkit::image::Image;
use txkit::image::ImageDataBase;
use txkit::image::ImageDataType;
use txkit::image::ImageDim;

fn device() -> Context {
    Context::new_gpu(Ok(GpuHandles { vertex_array: 1, framebuffer: 2, depthbuffer: 3 })).unwrap()
}

fn plane() -> GpuImageData {
    GpuImageData::new_2d(ImageDim::new(8, 4, 4), ImageDataType::UInt8, Ok(77)).unwrap()
}

fn synced_plane() -> GpuImageData {
    let mut image = plane();
    image.invalidate_host();
    assert_eq!(image.sync(), SyncAction::CreateBuffer);
    assert_eq!(image.sync_event(SyncEvent::BufferCreated(Ok(5))), SyncAction::AllocateStorage);
    assert_eq!(image.sync_event(SyncEvent::StorageAllocated(Ok(()))), SyncAction::Transfer);
    assert_eq!(image.sync_event(SyncEvent::FenceInserted(Ok(99))), SyncAction::Done(Ok(())));
    image
}

#[test]
fn a_new_image_is_in_step() {
    let image = plane();
    assert_eq!(image.device_generation(), 0);
    assert_eq!(image.host_generation(), 0);
    assert_eq!(image.texture(), 77);
    assert_eq!(image.buffer(), None);
    assert_eq!(image.target(), 0x0DE1);
    assert_eq!(image.phase(), Phase::Idle);
    assert!(!image.is_mapped());
    assert_eq!(image.byte_size(), 8 * 4 * 4);
}

#[test]
fn the_bytes_of_an_image_count_the_element_size() {
    let image =
        GpuImageData::new_3d(ImageDim::new_3d(8, 4, 2, 3), ImageDataType::Float32, Ok(1)).unwrap();
    assert_eq!(image.byte_size(), 4 * 8 * 4 * 2 * 3);
    assert_eq!(image.target(), 0x806F);
    let line = GpuImageData::new_1d(ImageDim::new_1d(8, 1), ImageDataType::UInt8, Ok(1)).unwrap();
    assert_eq!(line.target(), 0x0DE0);
    assert_eq!(line.byte_size(), 8);
}

#[test]
fn no_channel_or_more_than_four_is_refused_for_every_element_type() {
    let context = device();
    for element_type in [ImageDataType::UInt8, ImageDataType::Float32] {
        for channels in [0usize, 5, 6, 17, usize::MAX / (1 << 20)] {
            let expected = Err(ImageCreationError::InvalidChannelCount(channels));
            assert_eq!(
                Image::new_gpu_1d(ImageDim::new_1d(4, channels), element_type, &context, Ok(1))
                    .map(|_| ()),
                expected
            );
            assert_eq!(
                Image::new_gpu_2d(ImageDim::new(4, 4, channels), element_type, &context, Ok(1))
                    .map(|_| ()),
                expected
            );
            assert_eq!(
                Image::new_gpu_3d(
                    ImageDim::new_3d(4, 4, 4, channels),
                    element_type,
                    &context,
                    Err(String::from("driver"))
                )
                .map(|_| ()),
                expected
            );
            assert_eq!(
                GpuImageData::request_2d(ImageDim::new(4, 4, channels), element_type),
                Err(ImageCreationError::InvalidChannelCount(channels))
            );
        }
    }
}

#[test]
fn one_to_four_channels_are_accepted() {
    let context = device();
    for element_type in [ImageDataType::UInt8, ImageDataType::Float32] {
        for channels in 1..=4usize {
            assert!(Image::new_gpu_2d(ImageDim::new(4, 4, channels), element_type, &context, Ok(1))
                .is_ok());
        }
    }
}

#[test]
fn a_line_with_rows_or_layers_is_refused() {
    let context = device();
    for dim in [
        ImageDim::new(4, 2, 4),
        ImageDim::new_3d(4, 1, 2, 4),
        ImageDim::new_3d(4, 3, 3, 4),
        ImageDim::new_3d(4, 3, 3, 9),
    ] {
        assert_eq!(
            Image::new_gpu_1d(dim, ImageDataType::UInt8, &context, Ok(1)).map(|_| ()),
            Err(ImageCreationError::InvalidImageSize)
        );
        assert_eq!(
            GpuImageData::new_1d(dim, ImageDataType::Float32, Ok(1)).map(|_| ()),
            Err(ImageCreationError::InvalidImageSize)
        );
    }
    assert!(Image::new_gpu_1d(ImageDim::new_1d(4, 4), ImageDataType::UInt8, &context, Ok(1)).is_ok());
    assert!(Image::new_gpu_1d(
        ImageDim::new_3d(4, 0, 0, 4),
        ImageDataType::UInt8,
        &context,
        Ok(1)
    )
    .is_ok());
}

#[test]
fn a_plane_with_layers_is_refused() {
    let context = device();
    assert_eq!(
        Image::new_gpu_2d(ImageDim::new_3d(4, 4, 2, 4), ImageDataType::UInt8, &context, Ok(1))
            .map(|_| ()),
        Err(ImageCreationError::InvalidImageSize)
    );
    assert_eq!(
        Image::new_gpu_2d(ImageDim::new_3d(4, 4, 2, 0), ImageDataType::Float32, &context, Ok(1))
            .map(|_| ()),
        Err(ImageCreationError::InvalidImageSize)
    );
    assert!(Image::new_gpu_3d(ImageDim::new_3d(4, 4, 2, 4), ImageDataType::UInt8, &context, Ok(1))
        .is_ok());
}

#[test]
fn a_context_of_the_host_creates_no_image_on_a_device() {
    let context = Context::new_cpu().unwrap();
    let dim = ImageDim::new(4, 4, 4);
    assert_eq!(
        Image::new_gpu_1d(ImageDim::new_1d(4, 4), ImageDataType::UInt8, &context, Ok(1))
            .map(|_| ()),
        Err(ImageCreationError::ContextNotSupported)
    );
    assert_eq!(
        Image::new_gpu_2d(dim, ImageDataType::UInt8, &context, Ok(1)).map(|_| ()),
        Err(ImageCreationError::ContextNotSupported)
    );
    assert_eq!(
        Image::new_gpu_3d(ImageDim::new(4, 4, 9), ImageDataType::UInt8, &context, Ok(1))
            .map(|_| ()),
        Err(ImageCreationError::ContextNotSupported)
    );
}

#[test]
fn a_failure_of_the_driver_fails_the_creation() {
    let context = device();
    assert_eq!(
        Image::new_gpu_2d(
            ImageDim::new(4, 4, 4),
            ImageDataType::UInt8,
            &context,
            Err(String::from("out of memory"))
        )
        .map(|_| ()),
        Err(ImageCreationError::ImageCreationFailed(String::from("out of memory")))
    );
}

#[test]
fn the_texture_of_a_plane_of_bytes() {
    let request = GpuImageData::request_2d(ImageDim::new(8, 4, 4), ImageDataType::UInt8).unwrap();
    assert_eq!(
        request,
        TextureRequest {
            target: 0x0DE1,
            internal_format: 0x8058,
            width: 8,
            height: 4,
            depth: 1,
            format: 0x1908,
            data_type: 0x1401,
        }
    );
    assert_eq!(
        request.allocate_commands(77),
        vec![
            GlCommand::BindTexture { target: 0x0DE1, texture: Some(77) },
            GlCommand::TexParameter { target: 0x0DE1, parameter: 0x2801, value: 0x2600 },
            GlCommand::TexParameter { target: 0x0DE1, parameter: 0x2800, value: 0x2600 },
            GlCommand::TexImage {
                target: 0x0DE1,
                internal_format: 0x8058,
                width: 8,
                height: 4,
                depth: 1,
                format: 0x1908,
                data_type: 0x1401,
            },
        ]
    );
    assert_eq!(
        request.release_commands(),
        vec![GlCommand::BindTexture { target: 0x0DE1, texture: None }]
    );
}

#[test]
fn the_textures_of_a_line_and_of_a_volume() {
    let line = GpuImageData::request_1d(ImageDim::new_1d(8, 1), ImageDataType::Float32).unwrap();
    assert_eq!((line.target, line.internal_format, line.format, line.data_type), (0x0DE0, 0x822E, 0x1903, 0x1406));
    let volume =
        GpuImageData::request_3d(ImageDim::new_3d(8, 4, 2, 3), ImageDataType::Float32).unwrap();
    assert_eq!(
        (volume.target, volume.internal_format, volume.format, volume.depth),
        (0x806F, 0x8815, 0x1907, 2)
    );
}

#[test]
fn a_drawing_advances_the_counter_of_the_device_only() {
    let mut image = plane();
    image.invalidate_host();
    assert_eq!(image.device_generation(), 1);
    assert_eq!(image.host_generation(), 0);
    image.invalidate_host();
    assert_eq!(image.device_generation(), 2);
    assert_eq!(image.host_generation(), 0);
}

#[test]
fn a_transfer_brings_the_host_in_step_and_a_second_does_nothing() {
    let mut image = synced_plane();
    assert_eq!(image.device_generation(), 1);
    assert_eq!(image.host_generation(), 1);
    assert_eq!(image.buffer(), Some(5));
    assert_eq!(image.phase(), Phase::Idle);
    assert_eq!(image.sync(), SyncAction::Done(Ok(())));
    assert_eq!(image.phase(), Phase::Idle);
    assert_eq!(image.host_generation(), 1);
    assert_eq!(image.buffer(), Some(5));
}

#[test]
fn a_transfer_on_a_new_image_does_nothing() {
    let mut image = plane();
    assert_eq!(image.sync(), SyncAction::Done(Ok(())));
    assert_eq!(image.buffer(), None);
    assert_eq!(image.phase(), Phase::Idle);
}

#[test]
fn the_buffer_is_created_once() {
    let mut image = synced_plane();
    image.invalidate_host();
    assert_eq!(image.sync(), SyncAction::AllocateStorage);
    assert_eq!(image.phase(), Phase::AwaitStorage);
    assert_eq!(image.sync_event(SyncEvent::StorageAllocated(Ok(()))), SyncAction::Transfer);
    assert_eq!(image.sync_event(SyncEvent::FenceInserted(Ok(100))), SyncAction::Done(Ok(())));
    assert_eq!(image.host_generation(), 2);
    assert_eq!(image.buffer(), Some(5));
}

#[test]
fn the_calls_of_a_transfer() {
    let mut image = plane();
    image.invalidate_host();
    image.sync();
    assert_eq!(image.storage_commands(), vec![]);
    image.sync_event(SyncEvent::BufferCreated(Ok(5)));
    assert_eq!(
        image.storage_commands(),
        vec![
            GlCommand::BindBuffer { target: 0x88EB, buffer: Some(5) },
            GlCommand::BufferData { target: 0x88EB, size: 128, usage: 0x88E9 },
        ]
    );
    assert_eq!(
        image.transfer_commands(),
        vec![
            GlCommand::BindTexture { target: 0x0DE1, texture: Some(77) },
            GlCommand::GetTexImage { target: 0x0DE1, format: 0x1908, data_type: 0x1401 },
            GlCommand::BindBuffer { target: 0x88EB, buffer: None },
        ]
    );
}

#[test]
fn a_failure_of_the_driver_ends_the_transfer() {
    let mut image = plane();
    image.invalidate_host();
    image.sync();
    assert_eq!(
        image.sync_event(SyncEvent::BufferCreated(Err(String::from("no buffer")))),
        SyncAction::Done(Err(Error::OpenGlError(String::from("no buffer"))))
    );
    assert_eq!(image.phase(), Phase::Idle);
    assert_eq!(image.buffer(), None);
    assert_eq!(image.host_generation(), 0);

    image.sync();
    image.sync_event(SyncEvent::BufferCreated(Ok(5)));
    assert_eq!(
        image.sync_event(SyncEvent::StorageAllocated(Err(String::from("1285")))),
        SyncAction::Done(Err(Error::OpenGlError(String::from("1285"))))
    );
    assert_eq!(image.buffer(), Some(5));
    assert_eq!(image.host_generation(), 0);

    assert_eq!(image.sync(), SyncAction::AllocateStorage);
    image.sync_event(SyncEvent::StorageAllocated(Ok(())));
    assert_eq!(
        image.sync_event(SyncEvent::FenceInserted(Err(String::from("no fence")))),
        SyncAction::Done(Err(Error::OpenGlError(String::from("no fence"))))
    );
    assert_eq!(image.host_generation(), 0);
    assert_eq!(image.phase(), Phase::Idle);
}

#[test]
fn a_report_out_of_turn_changes_nothing() {
    let mut image = plane();
    assert_eq!(
        image.sync_event(SyncEvent::FenceInserted(Ok(1))),
        SyncAction::Done(Err(Error::MappingFailed(ImageDataError::UnknownMapping)))
    );
    assert_eq!(image.host_generation(), 0);
    assert_eq!(image.phase(), Phase::Idle);
    image.invalidate_host();
    image.sync();
    assert_eq!(
        image.sync_event(SyncEvent::StorageAllocated(Ok(()))),
        SyncAction::Done(Err(Error::MappingFailed(ImageDataError::UnknownMapping)))
    );
    assert_eq!(image.phase(), Phase::AwaitBuffer);
    assert_eq!(
        image.map_event(MapEvent::Mapped(true)),
        MapAction::Done(Err(ImageDataError::UnknownMapping))
    );
    assert!(!image.is_mapped());
}

#[test]
fn mapping_without_a_transfer_is_refused() {
    let mut fresh = plane();
    assert_eq!(fresh.map_buffer(1), MapAction::Done(Err(ImageDataError::Unsynced)));
    let mut drawn = synced_plane();
    drawn.invalidate_host();
    assert_eq!(drawn.map_buffer(1), MapAction::Done(Err(ImageDataError::Unsynced)));
    assert!(!drawn.is_mapped());
    assert_eq!(drawn.phase(), Phase::Idle);
}

#[test]
fn a_mapping_waits_for_the_transfer() {
    let mut image = synced_plane();
    let wait = MapAction::Wait { fence: 99, flags: 1, timeout: 10_000_000 };
    assert_eq!(TRANSFER_WAIT_NS, 10_000_000);
    assert_eq!(image.map_buffer(1), wait);
    assert_eq!(image.map_commands(), vec![]);
    // timeout expired: keep waiting
    assert_eq!(image.map_event(MapEvent::Waited(0x911B)), wait);
    // a status that the library does not know: keep waiting
    assert_eq!(image.map_event(MapEvent::Waited(0)), wait);
    // condition satisfied
    assert_eq!(image.map_event(MapEvent::Waited(0x911C)), MapAction::MapBuffer);
    assert_eq!(
        image.map_commands(),
        vec![
            GlCommand::BindBuffer { target: 0x88EB, buffer: Some(5) },
            GlCommand::MapBufferRange { target: 0x88EB, length: 128, access: 1 },
            GlCommand::BindBuffer { target: 0x88EB, buffer: None },
        ]
    );
    assert_eq!(image.map_event(MapEvent::Mapped(true)), MapAction::Done(Ok(())));
    assert!(image.is_mapped());
    assert_eq!(image.phase(), Phase::Idle);
}

#[test]
fn a_mapping_goes_on_after_a_signal_or_a_failed_wait() {
    for status in [0x911Au32, 0x911C, 0x911D] {
        let mut image = synced_plane();
        image.map_buffer(3);
        assert_eq!(image.map_event(MapEvent::Waited(status)), MapAction::MapBuffer);
        assert_eq!(image.phase(), Phase::MapPending { usage: 3 });
    }
}

#[test]
fn a_second_mapping_does_not_wait() {
    let mut image = synced_plane();
    image.map_buffer(1);
    image.map_event(MapEvent::Waited(0x911A));
    image.map_event(MapEvent::Mapped(true));
    assert_eq!(
        image.unmap_buffer(),
        vec![
            GlCommand::BindBuffer { target: 0x88EB, buffer: Some(5) },
            GlCommand::UnmapBuffer { target: 0x88EB },
            GlCommand::BindBuffer { target: 0x88EB, buffer: None },
        ]
    );
    assert!(!image.is_mapped());
    assert_eq!(image.map_buffer(3), MapAction::MapBuffer);
}

#[test]
fn an_address_that_the_driver_refuses_fails_the_mapping() {
    let mut image = synced_plane();
    image.map_buffer(1);
    image.map_event(MapEvent::Waited(0x911A));
    assert_eq!(
        image.map_event(MapEvent::Mapped(false)),
        MapAction::Done(Err(ImageDataError::MappingFailed))
    );
    assert!(!image.is_mapped());
    assert_eq!(image.phase(), Phase::Idle);
}

#[test]
fn a_mapped_image_is_not_mapped_again_nor_transferred() {
    let mut image = synced_plane();
    image.map_buffer(1);
    image.map_event(MapEvent::Waited(0x911A));
    image.map_event(MapEvent::Mapped(true));
    assert_eq!(image.map_buffer(1), MapAction::Done(Err(ImageDataError::MappingFailed)));
    image.invalidate_host();
    assert_eq!(
        image.sync(),
        SyncAction::Done(Err(Error::MappingFailed(ImageDataError::MappingFailed)))
    );
}

#[test]
fn unmapping_without_a_buffer_asks_for_nothing() {
    let mut image = plane();
    assert_eq!(image.unmap_buffer(), vec![]);
}

#[test]
fn an_image_on_a_device_is_mapped_by_the_driver() {
    let context = device();
    let mut image =
        Image::new_gpu_2d(ImageDim::new(8, 4, 4), ImageDataType::UInt8, &context, Ok(77)).unwrap();
    assert!(matches!(image.data(), Err(ImageDataError::Unsynced)));
    assert_eq!(image.sync(), SyncAction::Done(Ok(())));
    assert!(image.as_cpu_image().is_none());
    assert!(image.as_gpu_image().is_some());
    {
        let device_image = image.as_gpu_image_mut().unwrap();
        device_image.invalidate_host();
    }
    assert_eq!(image.sync(), SyncAction::CreateBuffer);
    {
        let device_image = image.as_gpu_image_mut().unwrap();
        device_image.sync_event(SyncEvent::BufferCreated(Ok(5)));
        device_image.sync_event(SyncEvent::StorageAllocated(Ok(())));
        device_image.sync_event(SyncEvent::FenceInserted(Ok(99)));
    }
    assert!(matches!(image.data(), Err(ImageDataError::UnknownMapping)));
    assert_eq!(image.dim().width, 8);
    assert_eq!(image.element_type(), ImageDataType::UInt8);
}

#[test]
fn an_image_that_is_given_up_releases_its_texture_and_its_buffer() {
    assert_eq!(plane().destroy(), vec![GlCommand::DeleteTexture { texture: 77 }]);
    assert_eq!(
        synced_plane().destroy(),
        vec![GlCommand::DeleteTexture { texture: 77 }, GlCommand::DeleteBuffer { buffer: 5 }]
    );
    let context = device();
    let image =
        Image::new_gpu_2d(ImageDim::new(8, 4, 4), ImageDataType::UInt8, &context, Ok(77)).unwrap();
    assert_eq!(image.destroy(), vec![GlCommand::DeleteTexture { texture: 77 }]);
    let on_host = Image::new_cpu(ImageDim::new(8, 4, 4), ImageDataType::UInt8);
    assert_eq!(on_host.destroy(), vec![]);
}

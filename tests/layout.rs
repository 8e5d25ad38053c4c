use std::sync::Arc;

use vulkano::depth_stencil::Compare;

use vulkano::layout_def::{
    pipeline_descs_compatible, set_descs_compatible, BufferResource, DescriptorBind, DescriptorDesc, DescriptorSetDesc,
    DescriptorSetLayout, DescriptorType, DescriptorWrite, LayoutError, PipelineLayout,
    ShaderStages, WriteError,
};

fn uniform(binding: u32, count: u32) -> DescriptorDesc {
    DescriptorDesc {
        binding,
        ty: DescriptorType::UniformBuffer,
        array_count: count,
        stages: ShaderStages::all_graphics(),
    }
}

fn buffer_write(binding: u32, array_element: u32) -> DescriptorWrite {
    let buf = Arc::new(BufferResource { handle: 7, size: 64 });
    DescriptorWrite { binding, array_element, content: DescriptorBind::UniformBuffer(buf) }
}

#[test]
fn all_graphics_stages() {
    let s = ShaderStages::all_graphics();
    assert!(s.vertex && s.tessellation_control && s.tessellation_evaluation);
    assert!(s.geometry && s.fragment);
    assert!(!s.compute);
    assert_eq!(s.into_flags(), 0x1f);
}

#[test]
fn compute_stage() {
    let s = ShaderStages::compute();
    assert!(!s.vertex && !s.tessellation_control && !s.tessellation_evaluation);
    assert!(!s.geometry && !s.fragment);
    assert!(s.compute);
    assert_eq!(s.into_flags(), 0x20);
}

#[test]
fn stage_flags_one_bit_each() {
    let s = ShaderStages {
        vertex: true,
        tessellation_control: false,
        tessellation_evaluation: false,
        geometry: true,
        fragment: true,
        compute: false,
    };
    assert_eq!(s.into_flags(), 0x19);
}

#[test]
fn descriptor_type_codes() {
    assert_eq!(DescriptorType::Sampler.vk_enum(), 0);
    assert_eq!(DescriptorType::UniformBuffer.vk_enum(), 6);
    assert_eq!(DescriptorType::InputAttachment.vk_enum(), 10);
}

#[test]
fn layout_with_binding_zero_checks_writes() {
    let layout = DescriptorSetLayout::new(vec![uniform(0, 1)]).unwrap();
    assert_eq!(layout.check_write(&buffer_write(0, 0)), Ok(()));
    assert_eq!(layout.check_write(&buffer_write(1, 0)), Err(WriteError::UnknownBinding));
    assert_eq!(
        layout.check_write(&buffer_write(0, 1)),
        Err(WriteError::ArrayElementOutOfRange)
    );
    let sampled = DescriptorSetLayout::new(vec![DescriptorDesc {
        binding: 0,
        ty: DescriptorType::SampledImage,
        array_count: 1,
        stages: ShaderStages::all_graphics(),
    }])
    .unwrap();
    assert_eq!(sampled.check_write(&buffer_write(0, 0)), Err(WriteError::KindMismatch));
}

#[test]
fn layout_rules() {
    assert_eq!(
        DescriptorSetLayout::new(vec![uniform(0, 1), uniform(0, 2)]).err(),
        Some(LayoutError::DuplicateBinding)
    );
    assert_eq!(
        DescriptorSetLayout::new(vec![uniform(0, 0)]).err(),
        Some(LayoutError::EmptyArray)
    );
    let layout = DescriptorSetLayout::new(vec![uniform(3, 2), uniform(1, 1)]).unwrap();
    assert_eq!(layout.descriptors(), vec![uniform(3, 2), uniform(1, 1)]);
    assert_eq!(layout.descriptor(1), Some(uniform(1, 1)));
    assert_eq!(layout.descriptor(2), None);
}

#[test]
fn writes_stop_at_first_error() {
    let layout = DescriptorSetLayout::new(vec![uniform(0, 2)]).unwrap();
    let ws = vec![buffer_write(0, 1), buffer_write(0, 2), buffer_write(5, 0)];
    assert_eq!(layout.check_writes(&ws), Err(WriteError::ArrayElementOutOfRange));
    assert_eq!(layout.check_writes(&vec![buffer_write(0, 0), buffer_write(0, 1)]), Ok(()));
    let decoded = layout.decode_write(vec![buffer_write(0, 1), buffer_write(0, 0)]).unwrap();
    assert_eq!(decoded.len(), 2);
    assert_eq!(decoded[0].array_element, 1);
    assert_eq!(decoded[1].array_element, 0);
    assert_eq!(layout.decode_write(vec![buffer_write(2, 0)]).err(), Some(WriteError::UnknownBinding));
}

#[test]
fn init_must_cover_every_binding() {
    let layout = DescriptorSetLayout::new(vec![uniform(0, 1), uniform(1, 1)]).unwrap();
    assert_eq!(layout.check_init(&vec![buffer_write(0, 0)]), Err(WriteError::MissingBinding));
    assert_eq!(layout.check_init(&vec![buffer_write(1, 0), buffer_write(0, 0)]), Ok(()));
    assert_eq!(layout.check_init(&vec![buffer_write(2, 0)]), Err(WriteError::UnknownBinding));
    assert_eq!(layout.decode_init(vec![buffer_write(0, 0)]).err(), Some(WriteError::MissingBinding));
    let init = layout.decode_init(vec![buffer_write(1, 0), buffer_write(0, 0)]).unwrap();
    assert_eq!(init.len(), 2);
    assert_eq!(init[0].binding, 1);
}

#[test]
fn compatibility_ignores_order() {
    let a = DescriptorSetLayout::new(vec![uniform(0, 1), uniform(1, 2)]).unwrap();
    let b = DescriptorSetLayout::new(vec![uniform(1, 2), uniform(0, 1)]).unwrap();
    let c = DescriptorSetLayout::new(vec![uniform(0, 1), uniform(1, 3)]).unwrap();
    assert!(a.is_compatible_with(&b));
    assert!(!a.is_compatible_with(&c));
    assert!(set_descs_compatible(&b, &a));
    let p = PipelineLayout::new(vec![Arc::new(a)]);
    let q = PipelineLayout::new(vec![Arc::new(b)]);
    let r = PipelineLayout::new(vec![Arc::new(c)]);
    assert!(p.is_compatible_with(&q));
    assert!(!p.is_compatible_with(&r));
    assert!(pipeline_descs_compatible(&p, (), &q, ()));
    assert!(!pipeline_descs_compatible(&p, (), &r, ()));
    assert_eq!(p.set_layouts().len(), 1);
}

#[test]
fn compare_codes() {
    assert_eq!(Compare::Never.vk_enum(), 0);
    assert_eq!(Compare::LessOrEqual.vk_enum(), 3);
    assert_eq!(Compare::Always.vk_enum(), 7);
}

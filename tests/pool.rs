use std::sync::Arc;

use vulkano::layout_def::{
    BufferResource, DescriptorBind, DescriptorDesc, DescriptorSetLayout, DescriptorType,
    DescriptorWrite, PipelineLayout, PipelineLayoutDesc, ShaderStages, WriteError,
};
use vulkano::pool::{AllocError, DescriptorPool, DescriptorPoolSize, UpdateError};

fn uniform_layout(count: u32) -> Arc<DescriptorSetLayout> {
    Arc::new(
        DescriptorSetLayout::new(vec![DescriptorDesc {
            binding: 0,
            ty: DescriptorType::UniformBuffer,
            array_count: count,
            stages: ShaderStages::all_graphics(),
        }])
        .unwrap(),
    )
}

fn write_of(buf: &Arc<BufferResource>) -> Vec<DescriptorWrite> {
    vec![DescriptorWrite {
        binding: 0,
        array_element: 0,
        content: DescriptorBind::UniformBuffer(buf.clone()),
    }]
}

fn uniform_sizes(count: u32) -> Vec<DescriptorPoolSize> {
    vec![DescriptorPoolSize { ty: DescriptorType::UniformBuffer, descriptor_count: count }]
}

#[test]
fn allocation_up_to_quota() {
    let buf = Arc::new(BufferResource { handle: 1, size: 256 });
    let mut pool = DescriptorPool::new(3, 42, 100, &uniform_sizes(4));
    let layout = uniform_layout(2);
    assert!(pool.allocate(layout.clone(), write_of(&buf)).is_ok());
    assert_eq!(pool.available(DescriptorType::UniformBuffer), 2);
    assert!(pool.allocate(layout.clone(), write_of(&buf)).is_ok());
    assert_eq!(pool.available(DescriptorType::UniformBuffer), 0);
    assert_eq!(pool.allocate(layout.clone(), write_of(&buf)).err(), Some(AllocError::OutOfPoolMemory));
    assert_eq!(pool.sets_left(), 98);
}

#[test]
fn mixed_sequence_up_to_quota() {
    let buf = Arc::new(BufferResource { handle: 1, size: 256 });
    let mut pool = DescriptorPool::new(3, 42, 100, &uniform_sizes(6));
    assert!(pool.allocate(uniform_layout(1), write_of(&buf)).is_ok());
    assert!(pool.allocate(uniform_layout(3), write_of(&buf)).is_ok());
    assert!(pool.allocate(uniform_layout(2), write_of(&buf)).is_ok());
    assert_eq!(pool.available(DescriptorType::UniformBuffer), 0);
    assert_eq!(pool.allocate(uniform_layout(1), write_of(&buf)).err(), Some(AllocError::OutOfPoolMemory));
    assert_eq!(pool.sets_left(), 97);
}

#[test]
fn allocation_up_to_set_limit() {
    let buf = Arc::new(BufferResource { handle: 1, size: 256 });
    let mut pool = DescriptorPool::new(3, 42, 1, &uniform_sizes(10));
    let layout = uniform_layout(1);
    assert!(pool.allocate(layout.clone(), write_of(&buf)).is_ok());
    assert_eq!(pool.sets_left(), 0);
    assert_eq!(pool.allocate(layout, write_of(&buf)).err(), Some(AllocError::OutOfPoolMemory));
}

#[test]
fn quotas_of_one_kind_add_up() {
    let sizes = vec![
        DescriptorPoolSize { ty: DescriptorType::UniformBuffer, descriptor_count: 3 },
        DescriptorPoolSize { ty: DescriptorType::Sampler, descriptor_count: 5 },
        DescriptorPoolSize { ty: DescriptorType::UniformBuffer, descriptor_count: 4 },
    ];
    let pool = DescriptorPool::new(3, 1, 10, &sizes);
    assert_eq!(pool.available(DescriptorType::UniformBuffer), 7);
    assert_eq!(pool.available(DescriptorType::Sampler), 5);
    assert_eq!(pool.available(DescriptorType::StorageImage), 0);
}

#[test]
fn allocation_checks_initial_writes() {
    let buf = Arc::new(BufferResource { handle: 1, size: 256 });
    let mut pool = DescriptorPool::new(3, 42, 10, &uniform_sizes(10));
    let layout = uniform_layout(1);
    assert_eq!(
        pool.allocate(layout.clone(), vec![]).err(),
        Some(AllocError::Init(WriteError::MissingBinding))
    );
    let mut bad = write_of(&buf);
    bad[0].array_element = 3;
    assert_eq!(
        pool.allocate(layout, bad).err(),
        Some(AllocError::Init(WriteError::ArrayElementOutOfRange))
    );
    assert_eq!(pool.available(DescriptorType::UniformBuffer), 10);
    assert_eq!(pool.sets_left(), 10);
}

#[test]
fn updates_append_writes() {
    let buf = Arc::new(BufferResource { handle: 1, size: 256 });
    let mut pool = DescriptorPool::new(3, 42, 10, &uniform_sizes(10));
    let mut other = DescriptorPool::new(3, 43, 10, &uniform_sizes(10));
    let id = pool.allocate(uniform_layout(1), write_of(&buf)).unwrap();
    assert_eq!(id.pool(), 42);
    assert_eq!(pool.update(id, write_of(&buf)), Ok(()));
    assert_eq!(pool.set(id).unwrap().writes().len(), 2);
    assert_eq!(other.update(id, write_of(&buf)), Err(UpdateError::ForeignSet));
    let mut bad = write_of(&buf);
    bad[0].binding = 9;
    assert_eq!(pool.update(id, bad), Err(UpdateError::Write(WriteError::UnknownBinding)));
    assert_eq!(pool.set(id).unwrap().writes().len(), 2);
    assert!(other.set(id).is_none());
}

#[test]
fn destroyed_pool_keeps_resources_alive() {
    let buf = Arc::new(BufferResource { handle: 9, size: 128 });
    let mut pool = DescriptorPool::new(3, 42, 10, &uniform_sizes(10));
    let id = pool.allocate(uniform_layout(1), write_of(&buf)).unwrap();
    assert_eq!(Arc::strong_count(&buf), 2);
    match &pool.set(id).unwrap().writes()[0].content {
        DescriptorBind::UniformBuffer(b) => assert_eq!(b.size, 128),
    }
    pool.destroy();
    assert!(pool.set(id).is_none());
    assert_eq!(pool.update(id, write_of(&buf)), Err(UpdateError::PoolDestroyed));
    assert_eq!(pool.allocate(uniform_layout(1), write_of(&buf)).err(), Some(AllocError::PoolDestroyed));
    assert_eq!(Arc::strong_count(&buf), 1);
    assert_eq!(buf.handle, 9);
    assert_eq!(buf.size, 128);
}

#[test]
fn new_pool_with_a_reused_handle_holds_no_old_set() {
    let buf = Arc::new(BufferResource { handle: 9, size: 128 });
    let mut pool = DescriptorPool::new(3, 5, 10, &uniform_sizes(10));
    let id = pool.allocate(uniform_layout(1), write_of(&buf)).unwrap();
    pool.destroy();
    let mut again = DescriptorPool::new(3, 5, 10, &uniform_sizes(10));
    assert_eq!(again.update(id, write_of(&buf)), Err(UpdateError::UnknownSet));
    assert!(again.set(id).is_none());
}

#[test]
fn pool_keeps_its_handles() {
    let pool = DescriptorPool::new(11, 77, 3, &vec![]);
    assert_eq!(pool.internal_object(), 77);
    assert_eq!(pool.device(), 11);
    assert_eq!(pool.sets_left(), 3);
}

#[test]
fn pipeline_layout_decodes_sets() {
    let buf = Arc::new(BufferResource { handle: 9, size: 128 });
    let mut pool = DescriptorPool::new(3, 5, 10, &uniform_sizes(10));
    let id = pool.allocate(uniform_layout(1), write_of(&buf)).unwrap();
    let pipeline = PipelineLayout::new(vec![uniform_layout(1)]);
    assert_eq!(pipeline.decode_descriptor_sets(vec![id]), Some(vec![id]));
    assert_eq!(pipeline.decode_descriptor_sets(vec![id, id]), None);
    assert_eq!(pipeline.decode_descriptor_set_layouts(()).len(), 1);
}

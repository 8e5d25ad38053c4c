//! Descriptors, descriptor-set layouts and the writes that fill them.
use std::sync::Arc;
use vstd::prelude::*;

use crate::pool::SetId;

verus! {

/// Native bit of the vertex stage in a stage mask.
pub const SHADER_STAGE_VERTEX_BIT: u32 = 0x1;
/// Native bit of the tessellation control stage in a stage mask.
pub const SHADER_STAGE_TESSELLATION_CONTROL_BIT: u32 = 0x2;
/// Native bit of the tessellation evaluation stage in a stage mask.
pub const SHADER_STAGE_TESSELLATION_EVALUATION_BIT: u32 = 0x4;
/// Native bit of the geometry stage in a stage mask.
pub const SHADER_STAGE_GEOMETRY_BIT: u32 = 0x8;
/// Native bit of the fragment stage in a stage mask.
pub const SHADER_STAGE_FRAGMENT_BIT: u32 = 0x10;
/// Native bit of the compute stage in a stage mask.
pub const SHADER_STAGE_COMPUTE_BIT: u32 = 0x20;

/// Describes which shader stages have access to a descriptor.
#[derive(Debug, Copy, Clone, PartialEq, Eq, Structural)]
pub struct ShaderStages {
    /// `true` means that the descriptor will be used by the vertex shader.
    pub vertex: bool,
    /// `true` means that the descriptor will be used by the tessellation control shader.
    pub tessellation_control: bool,
    /// `true` means that the descriptor will be used by the tessellation evaluation shader.
    pub tessellation_evaluation: bool,
    /// `true` means that the descriptor will be used by the geometry shader.
    pub geometry: bool,
    /// `true` means that the descriptor will be used by the fragment shader.
    pub fragment: bool,
    /// `true` means that the descriptor will be used by the compute shader.
    pub compute: bool,
}

/// The native bit of one stage when the stage is present, zero otherwise.
pub open spec fn stage_bit(present: bool, bit: u32) -> u32 {
    if present { bit } else { 0 }
}

/// The six stage bits of a mask each taken alone, as the mask's flags are set.
pub proof fn lemma_stage_mask(v: u32, tc: u32, te: u32, g: u32, f: u32, c: u32)
    requires
        v == 0 || v == 0x1,
        tc == 0 || tc == 0x2,
        te == 0 || te == 0x4,
        g == 0 || g == 0x8,
        f == 0 || f == 0x10,
        c == 0 || c == 0x20,
    ensures
        ((v | tc | te | g | f | c) & 0x1 != 0) == (v != 0),
        ((v | tc | te | g | f | c) & 0x2 != 0) == (tc != 0),
        ((v | tc | te | g | f | c) & 0x4 != 0) == (te != 0),
        ((v | tc | te | g | f | c) & 0x8 != 0) == (g != 0),
        ((v | tc | te | g | f | c) & 0x10 != 0) == (f != 0),
        ((v | tc | te | g | f | c) & 0x20 != 0) == (c != 0),
        (v | tc | te | g | f | c) < 0x40,
{
    assert(((v | tc | te | g | f | c) & 0x1 != 0) == (v != 0)
        && ((v | tc | te | g | f | c) & 0x2 != 0) == (tc != 0)
        && ((v | tc | te | g | f | c) & 0x4 != 0) == (te != 0)
        && ((v | tc | te | g | f | c) & 0x8 != 0) == (g != 0)
        && ((v | tc | te | g | f | c) & 0x10 != 0) == (f != 0)
        && ((v | tc | te | g | f | c) & 0x20 != 0) == (c != 0)
        && (v | tc | te | g | f | c) < 0x40) by (bit_vector)
        requires
            v == 0 || v == 0x1,
            tc == 0 || tc == 0x2,
            te == 0 || te == 0x4,
            g == 0 || g == 0x8,
            f == 0 || f == 0x10,
            c == 0 || c == 0x20,
    ;
}

impl ShaderStages {
    /// The stages that are not in this set.
    pub open spec fn complement(self) -> ShaderStages {
        ShaderStages {
            vertex: !self.vertex,
            tessellation_control: !self.tessellation_control,
            tessellation_evaluation: !self.tessellation_evaluation,
            geometry: !self.geometry,
            fragment: !self.fragment,
            compute: !self.compute,
        }
    }

    /// The native stage mask of this set of stages.
    pub open spec fn mask(self) -> u32 {
        stage_bit(self.vertex, SHADER_STAGE_VERTEX_BIT)
            | stage_bit(self.tessellation_control, SHADER_STAGE_TESSELLATION_CONTROL_BIT)
            | stage_bit(self.tessellation_evaluation, SHADER_STAGE_TESSELLATION_EVALUATION_BIT)
            | stage_bit(self.geometry, SHADER_STAGE_GEOMETRY_BIT)
            | stage_bit(self.fragment, SHADER_STAGE_FRAGMENT_BIT)
            | stage_bit(self.compute, SHADER_STAGE_COMPUTE_BIT)
    }

    /// Creates a `ShaderStages` with all graphics stages set to `true`.
    pub fn all_graphics() -> (r: ShaderStages)
        ensures
            r.vertex && r.tessellation_control && r.tessellation_evaluation,
            r.geometry && r.fragment,
            !r.compute,
    {
        ShaderStages {
            vertex: true,
            tessellation_control: true,
            tessellation_evaluation: true,
            geometry: true,
            fragment: true,
            compute: false,
        }
    }

    /// Creates a `ShaderStages` with only the compute stage set to `true`.
    pub fn compute() -> (r: ShaderStages)
        ensures
            !r.vertex && !r.tessellation_control && !r.tessellation_evaluation,
            !r.geometry && !r.fragment,
            r.compute,
    {
        ShaderStages {
            vertex: false,
            tessellation_control: false,
            tessellation_evaluation: false,
            geometry: false,
            fragment: false,
            compute: true,
        }
    }

    /// Turns the stages into the native stage mask: one bit per stage that is present.
    pub fn into_flags(self) -> (r: u32)
        ensures
            r == self.mask(),
            (r & SHADER_STAGE_VERTEX_BIT != 0) == self.vertex,
            (r & SHADER_STAGE_TESSELLATION_CONTROL_BIT != 0) == self.tessellation_control,
            (r & SHADER_STAGE_TESSELLATION_EVALUATION_BIT != 0) == self.tessellation_evaluation,
            (r & SHADER_STAGE_GEOMETRY_BIT != 0) == self.geometry,
            (r & SHADER_STAGE_FRAGMENT_BIT != 0) == self.fragment,
            (r & SHADER_STAGE_COMPUTE_BIT != 0) == self.compute,
            r < 0x40,
    {
        proof {
            assert(forall|x: u32| #[trigger] (x | 0) == x) by (bit_vector);
            assert(0u32 | SHADER_STAGE_VERTEX_BIT == SHADER_STAGE_VERTEX_BIT) by (bit_vector);
        }
        let mut result: u32 = 0;
        if self.vertex {
            result = result | SHADER_STAGE_VERTEX_BIT;
        }
        if self.tessellation_control {
            result = result | SHADER_STAGE_TESSELLATION_CONTROL_BIT;
        }
        if self.tessellation_evaluation {
            result = result | SHADER_STAGE_TESSELLATION_EVALUATION_BIT;
        }
        if self.geometry {
            result = result | SHADER_STAGE_GEOMETRY_BIT;
        }
        if self.fragment {
            result = result | SHADER_STAGE_FRAGMENT_BIT;
        }
        if self.compute {
            result = result | SHADER_STAGE_COMPUTE_BIT;
        }
        proof {
            lemma_stage_mask(
                stage_bit(self.vertex, SHADER_STAGE_VERTEX_BIT),
                stage_bit(self.tessellation_control, SHADER_STAGE_TESSELLATION_CONTROL_BIT),
                stage_bit(self.tessellation_evaluation, SHADER_STAGE_TESSELLATION_EVALUATION_BIT),
                stage_bit(self.geometry, SHADER_STAGE_GEOMETRY_BIT),
                stage_bit(self.fragment, SHADER_STAGE_FRAGMENT_BIT),
                stage_bit(self.compute, SHADER_STAGE_COMPUTE_BIT),
            );
        }
        result
    }
}

/// Describes what kind of resource may later be bound to a descriptor.
#[derive(Debug, Copy, Clone, PartialEq, Eq, Structural)]
pub enum DescriptorType {
    Sampler,
    CombinedImageSampler,
    SampledImage,
    StorageImage,
    UniformTexelBuffer,
    StorageTexelBuffer,
    UniformBuffer,
    StorageBuffer,
    UniformBufferDynamic,
    StorageBufferDynamic,
    InputAttachment,
}

/// How many kinds of descriptor there are.
pub const NUM_DESCRIPTOR_TYPES: usize = 11;

impl DescriptorType {
    /// The native code of the descriptor kind.
    pub open spec fn code(self) -> u32 {
        match self {
            DescriptorType::Sampler => 0,
            DescriptorType::CombinedImageSampler => 1,
            DescriptorType::SampledImage => 2,
            DescriptorType::StorageImage => 3,
            DescriptorType::UniformTexelBuffer => 4,
            DescriptorType::StorageTexelBuffer => 5,
            DescriptorType::UniformBuffer => 6,
            DescriptorType::StorageBuffer => 7,
            DescriptorType::UniformBufferDynamic => 8,
            DescriptorType::StorageBufferDynamic => 9,
            DescriptorType::InputAttachment => 10,
        }
    }

    /// Turns the `DescriptorType` into the corresponding native constant.
    pub fn vk_enum(&self) -> (r: u32)
        ensures
            r == self.code(),
            r < NUM_DESCRIPTOR_TYPES,
    {
        match *self {
            DescriptorType::Sampler => 0,
            DescriptorType::CombinedImageSampler => 1,
            DescriptorType::SampledImage => 2,
            DescriptorType::StorageImage => 3,
            DescriptorType::UniformTexelBuffer => 4,
            DescriptorType::StorageTexelBuffer => 5,
            DescriptorType::UniformBuffer => 6,
            DescriptorType::StorageBuffer => 7,
            DescriptorType::UniformBufferDynamic => 8,
            DescriptorType::StorageBufferDynamic => 9,
            DescriptorType::InputAttachment => 10,
        }
    }
}

/// Two kinds with one code are the same kind.
pub proof fn lemma_descriptor_code_injective(a: DescriptorType, b: DescriptorType)
    ensures
        a.code() == b.code() <==> a == b,
        a.code() < NUM_DESCRIPTOR_TYPES,
{
}

/// Describes a single descriptor.
#[derive(Debug, Copy, Clone, PartialEq, Eq, Structural)]
pub struct DescriptorDesc {
    /// Offset of the binding within the descriptor set.
    pub binding: u32,
    /// What kind of resource can later be bound to this descriptor.
    pub ty: DescriptorType,
    /// How many array elements this descriptor is made of.
    pub array_count: u32,
    /// Which shader stages are going to access this descriptor.
    pub stages: ShaderStages,
}

/// A buffer that can be bound to a descriptor, shared between every set that refers to it.
#[derive(Debug)]
pub struct BufferResource {
    /// Native handle of the buffer.
    pub handle: u64,
    /// Size of the buffer in bytes.
    pub size: u64,
}

/// The resource that a write binds to a descriptor.
#[derive(Clone)]
pub enum DescriptorBind {
    /// A uniform buffer.
    UniformBuffer(Arc<BufferResource>),
}

impl DescriptorBind {
    /// The kind of descriptor that can hold this resource.
    pub open spec fn kind(self) -> DescriptorType {
        match self {
            DescriptorBind::UniformBuffer(_) => DescriptorType::UniformBuffer,
        }
    }

    /// Returns the kind of descriptor that can hold this resource.
    pub fn ty(&self) -> (r: DescriptorType)
        ensures
            r == self.kind(),
    {
        match self {
            DescriptorBind::UniformBuffer(_) => DescriptorType::UniformBuffer,
        }
    }
}

/// Binds one resource to one array element of one descriptor of a set.
#[derive(Clone)]
pub struct DescriptorWrite {
    /// Binding of the descriptor written to.
    pub binding: u32,
    /// Array element of the descriptor written to.
    pub array_element: u32,
    /// The resource bound.
    pub content: DescriptorBind,
}

/// Why a write, or a list of writes, does not fit a layout.
#[derive(Debug, Copy, Clone, PartialEq, Eq, Structural)]
pub enum WriteError {
    /// No descriptor of the layout has the binding written to.
    UnknownBinding,
    /// The array element written to is past the descriptor's array.
    ArrayElementOutOfRange,
    /// The resource is not of the descriptor's kind.
    KindMismatch,
    /// A descriptor of the layout is written by none of the initial writes.
    MissingBinding,
}

/// Some descriptor of `descs` has the binding `b`.
pub open spec fn has_binding(descs: Seq<DescriptorDesc>, b: u32) -> bool {
    exists|i: int| 0 <= i < descs.len() && (#[trigger] descs[i]).binding == b
}

/// No two descriptors of `descs` share a binding.
pub open spec fn bindings_unique(descs: Seq<DescriptorDesc>) -> bool {
    forall|i: int, j: int|
        0 <= i < descs.len() && 0 <= j < descs.len() && i != j ==> (#[trigger] descs[i]).binding
            != (#[trigger] descs[j]).binding
}

/// Every descriptor of `descs` has at least one array element.
pub open spec fn counts_positive(descs: Seq<DescriptorDesc>) -> bool {
    forall|i: int| 0 <= i < descs.len() ==> (#[trigger] descs[i]).array_count >= 1
}

/// What checking the write `w` against the descriptors `descs` gives.
pub open spec fn write_check(descs: Seq<DescriptorDesc>, w: DescriptorWrite) -> Result<(), WriteError> {
    if !has_binding(descs, w.binding) {
        Err(WriteError::UnknownBinding)
    } else if exists|i: int|
        0 <= i < descs.len() && (#[trigger] descs[i]).binding == w.binding && w.array_element
            >= descs[i].array_count {
        Err(WriteError::ArrayElementOutOfRange)
    } else if exists|i: int|
        0 <= i < descs.len() && (#[trigger] descs[i]).binding == w.binding && descs[i].ty
            != w.content.kind() {
        Err(WriteError::KindMismatch)
    } else {
        Ok(())
    }
}

/// What checking the writes `ws`, in order, against `descs` gives: the error of the first
/// write that does not fit, if any.
pub open spec fn writes_fit(descs: Seq<DescriptorDesc>, ws: Seq<DescriptorWrite>, r: Result<(), WriteError>) -> bool {
    match r {
        Ok(()) => forall|k: int| 0 <= k < ws.len() ==> (#[trigger] write_check(descs, ws[k])) is Ok,
        Err(e) => exists|k: int|
            0 <= k < ws.len() && write_check(descs, #[trigger] ws[k]) == Err::<(), WriteError>(e) && forall|
                j: int,
            | 0 <= j < k ==> (#[trigger] write_check(descs, ws[j])) is Ok,
    }
}

/// Every descriptor of `descs` is written by some write of `ws`.
pub open spec fn covers(descs: Seq<DescriptorDesc>, ws: Seq<DescriptorWrite>) -> bool {
    forall|i: int|
        0 <= i < descs.len() ==> exists|k: int| 0 <= k < ws.len() && (#[trigger] ws[k]).binding == (
        #[trigger] descs[i]).binding
}

/// Each descriptor of `a` stands in `b`, and each of `b` in `a`.
pub open spec fn same_descriptors(a: Seq<DescriptorDesc>, b: Seq<DescriptorDesc>) -> bool {
    &&& forall|i: int| 0 <= i < a.len() ==> b.contains(#[trigger] a[i])
    &&& forall|j: int| 0 <= j < b.len() ==> a.contains(#[trigger] b[j])
}

/// What checking the writes `ws` that first fill a set against `descs` gives: the error of
/// the first write that does not fit, else whether every descriptor is written.
pub open spec fn init_fits(descs: Seq<DescriptorDesc>, ws: Seq<DescriptorWrite>, r: Result<(), WriteError>) -> bool {
    match r {
        Ok(()) => writes_fit(descs, ws, Ok(())) && covers(descs, ws),
        Err(WriteError::MissingBinding) => writes_fit(descs, ws, Ok(())) && !covers(descs, ws),
        Err(e) => writes_fit(descs, ws, Err(e)),
    }
}

/// Returns the position of the descriptor with binding `b`, if there is one.
fn find_binding(descs: &Vec<DescriptorDesc>, b: u32) -> (r: Option<usize>)
    ensures
        r matches Some(i) ==> i < descs@.len() && descs@[i as int].binding == b,
        r is None <==> !has_binding(descs@, b),
{
    let mut i: usize = 0;
    while i < descs.len()
        invariant
            i <= descs@.len(),
            forall|j: int| 0 <= j < i ==> (#[trigger] descs@[j]).binding != b,
        decreases descs@.len() - i,
    {
        if descs[i].binding == b {
            return Some(i);
        }
        i += 1;
    }
    None
}

/// Checks one write against a list of descriptors whose bindings are unique.
pub(crate) fn check_write(descs: &Vec<DescriptorDesc>, w: &DescriptorWrite) -> (r: Result<(), WriteError>)
    requires
        bindings_unique(descs@),
    ensures
        r == write_check(descs@, *w),
{
    match find_binding(descs, w.binding) {
        None => Err(WriteError::UnknownBinding),
        Some(i) => {
            let d = descs[i];
            assert(forall|j: int|
                0 <= j < descs@.len() && (#[trigger] descs@[j]).binding == w.binding ==> j == i);
            if w.array_element >= d.array_count {
                Err(WriteError::ArrayElementOutOfRange)
            } else if w.content.ty() != d.ty {
                Err(WriteError::KindMismatch)
            } else {
                Ok(())
            }
        },
    }
}

/// Checks a list of writes, in order, against a list of descriptors whose bindings are
/// unique, and stops at the first one that does not fit.
pub(crate) fn check_writes(descs: &Vec<DescriptorDesc>, ws: &Vec<DescriptorWrite>) -> (r: Result<(), WriteError>)
    requires
        bindings_unique(descs@),
    ensures
        writes_fit(descs@, ws@, r),
{
    let mut k: usize = 0;
    while k < ws.len()
        invariant
            k <= ws@.len(),
            bindings_unique(descs@),
            forall|j: int| 0 <= j < k ==> (#[trigger] write_check(descs@, ws@[j])) is Ok,
        decreases ws@.len() - k,
    {
        match check_write(descs, &ws[k]) {
            Err(e) => {
                assert(write_check(descs@, ws@[k as int]) == Err::<(), WriteError>(e));
                return Err(e);
            },
            Ok(()) => {},
        }
        k += 1;
    }
    Ok(())
}

/// Returns whether `d` is one of the descriptors of `descs`.
fn contains_desc(descs: &Vec<DescriptorDesc>, d: DescriptorDesc) -> (r: bool)
    ensures
        r == descs@.contains(d),
{
    let mut i: usize = 0;
    while i < descs.len()
        invariant
            i <= descs@.len(),
            forall|j: int| 0 <= j < i ==> descs@[j] != d,
        decreases descs@.len() - i,
    {
        if descs[i] == d {
            assert(descs@[i as int] == d);
            return true;
        }
        i += 1;
    }
    false
}

/// Returns whether each descriptor of `a` stands in `b`.
fn all_contained(a: &Vec<DescriptorDesc>, b: &Vec<DescriptorDesc>) -> (r: bool)
    ensures
        r == forall|i: int| 0 <= i < a@.len() ==> b@.contains(#[trigger] a@[i]),
{
    let mut i: usize = 0;
    while i < a.len()
        invariant
            i <= a@.len(),
            forall|j: int| 0 <= j < i ==> b@.contains(#[trigger] a@[j]),
        decreases a@.len() - i,
    {
        if !contains_desc(b, a[i]) {
            return false;
        }
        i += 1;
    }
    true
}

/// Returns whether two lists of descriptors describe the same descriptors, whatever their order.
pub fn descriptors_compatible(a: &Vec<DescriptorDesc>, b: &Vec<DescriptorDesc>) -> (r: bool)
    ensures
        r == same_descriptors(a@, b@),
{
    all_contained(a, b) && all_contained(b, a)
}

/// Why a list of descriptors cannot make a descriptor-set layout.
#[derive(Debug, Copy, Clone, PartialEq, Eq, Structural)]
pub enum LayoutError {
    /// Two descriptors have the same binding.
    DuplicateBinding,
    /// A descriptor has an array of no element.
    EmptyArray,
    /// There are more descriptors than a native count can hold.
    TooManyDescriptors,
}

/// What building a layout from `descs` gives: its first failed rule, if any.
pub open spec fn layout_check(descs: Seq<DescriptorDesc>) -> Result<(), LayoutError> {
    if descs.len() > u32::MAX {
        Err(LayoutError::TooManyDescriptors)
    } else if !bindings_unique(descs) {
        Err(LayoutError::DuplicateBinding)
    } else if !counts_positive(descs) {
        Err(LayoutError::EmptyArray)
    } else {
        Ok(())
    }
}

/// The layout of one descriptor set: a list of descriptors with unique bindings.
pub struct DescriptorSetLayout {
    descriptors: Vec<DescriptorDesc>,
}

impl View for DescriptorSetLayout {
    type V = Seq<DescriptorDesc>;

    closed spec fn view(&self) -> Seq<DescriptorDesc> {
        self.descriptors@
    }
}

impl DescriptorSetLayout {
    #[verifier::type_invariant]
    spec fn inv(self) -> bool {
        layout_check(self.descriptors@) is Ok
    }

    /// Builds a layout from its descriptors, in their order.
    pub fn new(descriptors: Vec<DescriptorDesc>) -> (r: Result<DescriptorSetLayout, LayoutError>)
        ensures
            match r {
                Ok(l) => layout_check(descriptors@) is Ok && l@ == descriptors@,
                Err(e) => layout_check(descriptors@) == Err::<(), LayoutError>(e),
            },
    {
        if descriptors.len() > u32::MAX as usize {
            return Err(LayoutError::TooManyDescriptors);
        }
        let mut i: usize = 0;
        while i < descriptors.len()
            invariant
                i <= descriptors@.len(),
                descriptors@.len() <= u32::MAX,
                forall|a: int, b: int|
                    0 <= a < i && 0 <= b < descriptors@.len() && a != b ==> (
                    #[trigger] descriptors@[a]).binding != (#[trigger] descriptors@[b]).binding,
            decreases descriptors@.len() - i,
        {
            let mut j: usize = 0;
            while j < descriptors.len()
                invariant
                    i < descriptors@.len(),
                    j <= descriptors@.len(),
                    descriptors@.len() <= u32::MAX,
                    forall|a: int, b: int|
                        0 <= a < i && 0 <= b < descriptors@.len() && a != b ==> (
                        #[trigger] descriptors@[a]).binding != (#[trigger] descriptors@[b]).binding,
                    forall|b: int|
                        0 <= b < j && b != i ==> descriptors@[i as int].binding != (
                        #[trigger] descriptors@[b]).binding,
                decreases descriptors@.len() - j,
            {
                if j != i && descriptors[i].binding == descriptors[j].binding {
                    assert(!bindings_unique(descriptors@)) by {
                        assert(descriptors@[i as int].binding == descriptors@[j as int].binding);
                    }
                    return Err(LayoutError::DuplicateBinding);
                }
                j += 1;
            }
            i += 1;
        }
        let mut k: usize = 0;
        while k < descriptors.len()
            invariant
                k <= descriptors@.len(),
                layout_check(descriptors@) is Ok || layout_check(descriptors@) == Err::<
                    (),
                    LayoutError,
                >(LayoutError::EmptyArray),
                forall|a: int| 0 <= a < k ==> (#[trigger] descriptors@[a]).array_count >= 1,
            decreases descriptors@.len() - k,
        {
            if descriptors[k].array_count == 0 {
                assert(!counts_positive(descriptors@)) by {
                    assert(descriptors@[k as int].array_count == 0);
                }
                return Err(LayoutError::EmptyArray);
            }
            k += 1;
        }
        Ok(DescriptorSetLayout { descriptors })
    }

    /// Returns the layout's descriptors, in their order. Their bindings are unique, each has
    /// at least one array element, and their count fits a native count.
    pub fn descriptors(&self) -> (r: Vec<DescriptorDesc>)
        ensures
            r@ == self@,
            layout_check(self@) is Ok,
    {
        proof {
            use_type_invariant(self);
        }
        let mut out: Vec<DescriptorDesc> = Vec::new();
        let mut i: usize = 0;
        while i < self.descriptors.len()
            invariant
                i <= self.descriptors@.len(),
                out@ == self.descriptors@.subrange(0, i as int),
            decreases self.descriptors@.len() - i,
        {
            out.push(self.descriptors[i]);
            i += 1;
        }
        assert(out@ =~= self.descriptors@);
        out
    }

    /// Returns the descriptor of the layout with binding `binding`, if there is one.
    pub fn descriptor(&self, binding: u32) -> (r: Option<DescriptorDesc>)
        ensures
            r is None <==> !has_binding(self@, binding),
            r matches Some(d) ==> self@.contains(d) && d.binding == binding,
    {
        match find_binding(&self.descriptors, binding) {
            Some(i) => Some(self.descriptors[i]),
            None => None,
        }
    }

    /// Checks that a write fits the layout: its binding is one of the layout's, its array
    /// element lies in that descriptor's array, and its resource is of the descriptor's kind.
    pub fn check_write(&self, w: &DescriptorWrite) -> (r: Result<(), WriteError>)
        ensures
            r == write_check(self@, *w),
    {
        proof {
            use_type_invariant(self);
        }
        check_write(&self.descriptors, w)
    }

    /// Checks writes in order against the layout; the error is that of the first write that
    /// does not fit.
    pub fn check_writes(&self, ws: &Vec<DescriptorWrite>) -> (r: Result<(), WriteError>)
        ensures
            writes_fit(self@, ws@, r),
    {
        proof {
            use_type_invariant(self);
        }
        check_writes(&self.descriptors, ws)
    }

    /// Checks the writes that first fill a set of this layout: each must fit, as for
    /// `check_writes`, and every descriptor of the layout must be written.
    pub fn check_init(&self, ws: &Vec<DescriptorWrite>) -> (r: Result<(), WriteError>)
        ensures
            init_fits(self@, ws@, r),
    {
        proof {
            use_type_invariant(self);
        }
        let checked = check_writes(&self.descriptors, ws);
        if let Err(e) = checked {
            proof {
                let k = choose|k: int|
                    0 <= k < ws@.len() && write_check(self@, #[trigger] ws@[k]) == Err::<
                        (),
                        WriteError,
                    >(e) && forall|j: int|
                        0 <= j < k ==> (#[trigger] write_check(self@, ws@[j])) is Ok;
                assert(write_check(self@, ws@[k]) != Err::<(), WriteError>(WriteError::MissingBinding));
            }
            return Err(e);
        }
        let mut i: usize = 0;
        while i < self.descriptors.len()
            invariant
                i <= self.descriptors@.len(),
                writes_fit(self@, ws@, Ok(())),
                forall|a: int|
                    0 <= a < i ==> exists|k: int|
                        0 <= k < ws@.len() && (#[trigger] ws@[k]).binding == (
                        #[trigger] self.descriptors@[a]).binding,
            decreases self.descriptors@.len() - i,
        {
            let b = self.descriptors[i].binding;
            let mut k: usize = 0;
            let mut found = false;
            while k < ws.len()
                invariant
                    k <= ws@.len(),
                    i < self.descriptors@.len(),
                    b == self.descriptors@[i as int].binding,
                    found ==> exists|m: int| 0 <= m < ws@.len() && (#[trigger] ws@[m]).binding == b,
                    !found ==> forall|m: int| 0 <= m < k ==> (#[trigger] ws@[m]).binding != b,
                decreases ws@.len() - k,
            {
                if ws[k].binding == b {
                    found = true;
                }
                k += 1;
            }
            if !found {
                assert(!covers(self@, ws@)) by {
                    let di = self.descriptors@[i as int];
                    assert(!exists|m: int| 0 <= m < ws@.len() && (#[trigger] ws@[m]).binding == di.binding);
                }
                return Err(WriteError::MissingBinding);
            }
            i += 1;
        }
        Ok(())
    }

    /// Returns whether this layout and `other` hold the same descriptors (bindings, kinds,
    /// array counts and stages), whatever their order.
    pub fn is_compatible_with(&self, other: &DescriptorSetLayout) -> (r: bool)
        ensures
            r == same_descriptors(self@, other@),
    {
        descriptors_compatible(&self.descriptors, &other.descriptors)
    }
}

/// The compute stages are exactly the stages that are not graphics stages.
pub proof fn lemma_compute_complements_graphics(g: ShaderStages, c: ShaderStages)
    requires
        call_ensures(ShaderStages::all_graphics, (), g),
        call_ensures(ShaderStages::compute, (), c),
    ensures
        c == g.complement(),
        g == c.complement(),
{
}

/// Types that describe a single descriptor set.
pub trait DescriptorSetDesc {
    /// A modification of a descriptor set, in the user's own typed form.
    type Write;

    /// The resources that must be given when a descriptor set is first filled.
    type Init;

    /// The descriptors of the set, in order.
    spec fn shape(&self) -> Seq<DescriptorDesc>;

    /// Returns the list of descriptors contained in this set; the same on every call.
    fn descriptors(&self) -> (r: Vec<DescriptorDesc>)
        ensures
            r@ == self.shape(),
    ;

    /// The generic write records that a typed write stands for.
    spec fn write_records(&self, write: Self::Write) -> Seq<DescriptorWrite>;

    /// The generic write records that typed first contents stand for.
    spec fn init_records(&self, init: Self::Init) -> Seq<DescriptorWrite>;

    /// Turns a typed write into its generic write records, which must each fit the set; the
    /// error is that of the first record that does not.
    fn decode_write(&self, write: Self::Write) -> (r: Result<Vec<DescriptorWrite>, WriteError>)
        ensures
            match r {
                Ok(ws) => ws@ == self.write_records(write) && writes_fit(self.shape(), ws@, Ok(())),
                Err(e) => writes_fit(self.shape(), self.write_records(write), Err(e)),
            },
    ;

    /// Turns the typed first contents of a set into its generic write records, which must fit
    /// the set and write every one of its descriptors.
    fn decode_init(&self, init: Self::Init) -> (r: Result<Vec<DescriptorWrite>, WriteError>)
        ensures
            match r {
                Ok(ws) => ws@ == self.init_records(init) && init_fits(self.shape(), ws@, Ok(())),
                Err(e) => init_fits(self.shape(), self.init_records(init), Err(e)),
            },
    ;
}

/// Returns whether two descriptions of sets hold the same descriptors, whatever their order.
pub fn set_descs_compatible<A: DescriptorSetDesc, B: DescriptorSetDesc>(a: &A, b: &B) -> (r: bool)
    ensures
        r == same_descriptors(a.shape(), b.shape()),
{
    descriptors_compatible(&a.descriptors(), &b.descriptors())
}

impl DescriptorSetDesc for DescriptorSetLayout {
    type Write = Vec<DescriptorWrite>;

    type Init = Vec<DescriptorWrite>;

    open spec fn shape(&self) -> Seq<DescriptorDesc> {
        self@
    }

    open spec fn write_records(&self, write: Vec<DescriptorWrite>) -> Seq<DescriptorWrite> {
        write@
    }

    open spec fn init_records(&self, init: Vec<DescriptorWrite>) -> Seq<DescriptorWrite> {
        init@
    }

    fn descriptors(&self) -> (r: Vec<DescriptorDesc>) {
        DescriptorSetLayout::descriptors(self)
    }

    fn decode_write(&self, write: Vec<DescriptorWrite>) -> (r: Result<Vec<DescriptorWrite>, WriteError>) {
        match self.check_writes(&write) {
            Ok(()) => Ok(write),
            Err(e) => Err(e),
        }
    }

    fn decode_init(&self, init: Vec<DescriptorWrite>) -> (r: Result<Vec<DescriptorWrite>, WriteError>) {
        match self.check_init(&init) {
            Ok(()) => Ok(init),
            Err(e) => Err(e),
        }
    }
}

/// The layout of a pipeline: the layouts of its descriptor sets, in order.
pub struct PipelineLayout {
    sets: Vec<Arc<DescriptorSetLayout>>,
}

impl View for PipelineLayout {
    type V = Seq<Seq<DescriptorDesc>>;

    closed spec fn view(&self) -> Seq<Seq<DescriptorDesc>> {
        self.sets@.map_values(|l: Arc<DescriptorSetLayout>| l@)
    }
}

/// Two pipeline layouts have as many sets, and the sets at each position hold the same
/// descriptors.
pub open spec fn same_sets(a: Seq<Seq<DescriptorDesc>>, b: Seq<Seq<DescriptorDesc>>) -> bool {
    &&& a.len() == b.len()
    &&& forall|i: int| 0 <= i < a.len() ==> same_descriptors(#[trigger] a[i], b[i])
}

impl PipelineLayout {
    /// Builds a pipeline layout from the layouts of its sets, in order.
    pub fn new(sets: Vec<Arc<DescriptorSetLayout>>) -> (r: PipelineLayout)
        ensures
            r@ == sets@.map_values(|l: Arc<DescriptorSetLayout>| l@),
    {
        PipelineLayout { sets }
    }

    /// Returns the layouts of the pipeline's sets, in order.
    pub fn set_layouts(&self) -> (r: &Vec<Arc<DescriptorSetLayout>>)
        ensures
            r@.map_values(|l: Arc<DescriptorSetLayout>| l@) == self@,
    {
        &self.sets
    }

    /// Returns whether this pipeline layout and `other` have as many sets, with the same
    /// descriptors in the sets at each position.
    pub fn is_compatible_with(&self, other: &PipelineLayout) -> (r: bool)
        ensures
            r == same_sets(self@, other@),
    {
        layouts_compatible(&self.sets, &other.sets)
    }
}

/// Returns whether two lists of set layouts have as many layouts, with the same descriptors in
/// the layouts at each position.
pub fn layouts_compatible(a: &Vec<Arc<DescriptorSetLayout>>, b: &Vec<Arc<DescriptorSetLayout>>) -> (r: bool)
    ensures
        r == same_sets(
            a@.map_values(|l: Arc<DescriptorSetLayout>| l@),
            b@.map_values(|l: Arc<DescriptorSetLayout>| l@),
        ),
{
    let ghost va = a@.map_values(|l: Arc<DescriptorSetLayout>| l@);
    let ghost vb = b@.map_values(|l: Arc<DescriptorSetLayout>| l@);
    if a.len() != b.len() {
        return false;
    }
    let mut i: usize = 0;
    while i < a.len()
        invariant
            i <= a@.len(),
            a@.len() == b@.len(),
            va == a@.map_values(|l: Arc<DescriptorSetLayout>| l@),
            vb == b@.map_values(|l: Arc<DescriptorSetLayout>| l@),
            forall|j: int| 0 <= j < i ==> same_descriptors(#[trigger] va[j], vb[j]),
        decreases a@.len() - i,
    {
        assert(va[i as int] == a@[i as int]@);
        assert(vb[i as int] == b@[i as int]@);
        if !a[i].is_compatible_with(&b[i]) {
            return false;
        }
        i += 1;
    }
    true
}

/// Types that describe the layout of a pipeline: its descriptor sets and push constants.
pub trait PipelineLayoutDesc {
    /// The descriptor sets to pass when drawing with this layout, in the user's typed form.
    type DescriptorSets;

    /// The descriptor-set layouts to pass when building this layout, in the user's typed form.
    type DescriptorSetLayouts;

    /// Push constants of the layout.
    type PushConstants;

    /// The descriptors of each set of the layout, in order.
    spec fn set_shapes(&self) -> Seq<Seq<DescriptorDesc>>;

    /// The ids of the sets that typed descriptor sets stand for, in order.
    spec fn set_records(&self, sets: Self::DescriptorSets) -> Seq<SetId>;

    /// Turns the typed descriptor sets into the ids of the sets they stand for, one per set
    /// layout of the pipeline; `None` where their number is not the number of set layouts.
    fn decode_descriptor_sets(&self, sets: Self::DescriptorSets) -> (r: Option<Vec<SetId>>)
        ensures
            r is Some <==> self.set_records(sets).len() == self.set_shapes().len(),
            r matches Some(ids) ==> ids@ == self.set_records(sets),
    ;

    /// Turns the typed descriptor-set layouts into one layout per position, in order.
    fn decode_descriptor_set_layouts(&self, layouts: Self::DescriptorSetLayouts) -> (r: Vec<Arc<DescriptorSetLayout>>)
        ensures
            r@.map_values(|l: Arc<DescriptorSetLayout>| l@) == self.set_shapes(),
    ;
}

/// Returns whether two descriptions of pipeline layouts have as many sets, with the same
/// descriptors in the sets at each position.
pub fn pipeline_descs_compatible<A: PipelineLayoutDesc, B: PipelineLayoutDesc>(
    a: &A,
    a_layouts: A::DescriptorSetLayouts,
    b: &B,
    b_layouts: B::DescriptorSetLayouts,
) -> (r: bool)
    ensures
        r == same_sets(a.set_shapes(), b.set_shapes()),
{
    layouts_compatible(
        &a.decode_descriptor_set_layouts(a_layouts),
        &b.decode_descriptor_set_layouts(b_layouts),
    )
}

impl PipelineLayoutDesc for PipelineLayout {
    type DescriptorSets = Vec<SetId>;

    type DescriptorSetLayouts = ();

    type PushConstants = ();

    open spec fn set_shapes(&self) -> Seq<Seq<DescriptorDesc>> {
        self@
    }

    open spec fn set_records(&self, sets: Vec<SetId>) -> Seq<SetId> {
        sets@
    }

    fn decode_descriptor_sets(&self, sets: Vec<SetId>) -> (r: Option<Vec<SetId>>) {
        if sets.len() == self.sets.len() {
            Some(sets)
        } else {
            None
        }
    }

    fn decode_descriptor_set_layouts(&self, layouts: ()) -> (r: Vec<Arc<DescriptorSetLayout>>) {
        let mut out: Vec<Arc<DescriptorSetLayout>> = Vec::new();
        let mut i: usize = 0;
        while i < self.sets.len()
            invariant
                i <= self.sets@.len(),
                out@.len() == i,
                forall|j: int| 0 <= j < i ==> (#[trigger] out@[j])@ == self.sets@[j]@,
            decreases self.sets@.len() - i,
        {
            out.push(self.sets[i].clone());
            i += 1;
        }
        assert(out@.map_values(|l: Arc<DescriptorSetLayout>| l@) =~= self@);
        out
    }
}

} // verus!

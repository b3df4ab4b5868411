//! What a component tree asks of the GPU, what a host offers, and how the
//! two are reconciled before a device is created.
use vstd::prelude::*;
use crate::error::GFXError;
use crate::CardinalError;

verus! {

/// A set of GPU features, one bit for each feature.
#[derive(Clone, Copy, Debug, PartialEq, Eq, Structural)]
pub struct FeatureSet {
    pub bits: u64,
}

impl FeatureSet {
    /// Whether the feature numbered `index` (below 64) is in the set.
    pub open spec fn has(self, index: u64) -> bool {
        (self.bits >> index) & 1 == 1
    }

    /// Whether every feature of `self` is also in `other`.
    pub open spec fn within(self, other: FeatureSet) -> bool {
        self.bits & !other.bits == 0
    }

    pub fn empty() -> (r: FeatureSet)
        ensures
            r.bits == 0,
    {
        FeatureSet { bits: 0 }
    }

    pub fn from_bits(bits: u64) -> (r: FeatureSet)
        ensures
            r.bits == bits,
    {
        FeatureSet { bits }
    }

    pub fn union(self, other: FeatureSet) -> (r: FeatureSet)
        ensures
            r.bits == self.bits | other.bits,
    {
        FeatureSet { bits: self.bits | other.bits }
    }

    pub fn intersection(self, other: FeatureSet) -> (r: FeatureSet)
        ensures
            r.bits == self.bits & other.bits,
    {
        FeatureSet { bits: self.bits & other.bits }
    }

    /// The features of `self` that `other` lacks.
    pub fn difference(self, other: FeatureSet) -> (r: FeatureSet)
        ensures
            r.bits == self.bits & !other.bits,
    {
        FeatureSet { bits: self.bits & !other.bits }
    }

    pub fn is_within(self, other: FeatureSet) -> (b: bool)
        ensures
            b == self.within(other),
    {
        self.bits & !other.bits == 0
    }
}

/// A set of downlevel capability flags, one bit for each flag.
#[derive(Clone, Copy, Debug, PartialEq, Eq, Structural)]
pub struct DownlevelFlags {
    pub bits: u32,
}

impl DownlevelFlags {
    /// Whether every flag of `self` is also in `other`.
    pub open spec fn within(self, other: DownlevelFlags) -> bool {
        self.bits & !other.bits == 0
    }

    pub fn empty() -> (r: DownlevelFlags)
        ensures
            r.bits == 0,
    {
        DownlevelFlags { bits: 0 }
    }

    pub fn from_bits(bits: u32) -> (r: DownlevelFlags)
        ensures
            r.bits == bits,
    {
        DownlevelFlags { bits }
    }

    pub fn union(self, other: DownlevelFlags) -> (r: DownlevelFlags)
        ensures
            r.bits == self.bits | other.bits,
    {
        DownlevelFlags { bits: self.bits | other.bits }
    }

    /// The flags of `self` that `other` lacks.
    pub fn difference(self, other: DownlevelFlags) -> (r: DownlevelFlags)
        ensures
            r.bits == self.bits & !other.bits,
    {
        DownlevelFlags { bits: self.bits & !other.bits }
    }

    pub fn is_within(self, other: DownlevelFlags) -> (b: bool)
        ensures
            b == self.within(other),
    {
        self.bits & !other.bits == 0
    }
}

/// The shader model tiers, lowest first.
#[derive(Clone, Copy, Debug, PartialEq, Eq, Structural)]
pub enum ShaderModel {
    Sm2,
    Sm4,
    Sm5,
}

impl ShaderModel {
    /// The position of the tier in the order `Sm2 < Sm4 < Sm5`.
    pub open spec fn rank_spec(self) -> nat {
        match self {
            ShaderModel::Sm2 => 0,
            ShaderModel::Sm4 => 1,
            ShaderModel::Sm5 => 2,
        }
    }

    pub open spec fn higher_spec(self, other: ShaderModel) -> ShaderModel {
        if self.rank_spec() >= other.rank_spec() {
            self
        } else {
            other
        }
    }

    pub fn rank(self) -> (r: u8)
        ensures
            r == self.rank_spec(),
    {
        match self {
            ShaderModel::Sm2 => 0,
            ShaderModel::Sm4 => 1,
            ShaderModel::Sm5 => 2,
        }
    }

    /// The higher of two tiers.
    pub fn higher(self, other: ShaderModel) -> (r: ShaderModel)
        ensures
            r == self.higher_spec(other),
    {
        if self.rank() >= other.rank() {
            self
        } else {
            other
        }
    }
}

pub open spec fn max_u32(a: u32, b: u32) -> u32 {
    if a >= b {
        a
    } else {
        b
    }
}

fn larger(a: u32, b: u32) -> (r: u32)
    ensures
        r == max_u32(a, b),
{
    if a >= b {
        a
    } else {
        b
    }
}

/// Resource limits, field for field those of the backend. A request is
/// met by a host whose value is at least as large; for the two alignment
/// fields the backend reads the value the other way round, and they are
/// carried and merged like the rest.
#[derive(Clone, Copy, Debug, PartialEq, Eq, Structural)]
pub struct Limits {
    pub max_texture_dimension_1d: u32,
    pub max_texture_dimension_2d: u32,
    pub max_texture_dimension_3d: u32,
    pub max_texture_array_layers: u32,
    pub max_bind_groups: u32,
    pub max_dynamic_uniform_buffers_per_pipeline_layout: u32,
    pub max_dynamic_storage_buffers_per_pipeline_layout: u32,
    pub max_sampled_textures_per_shader_stage: u32,
    pub max_samplers_per_shader_stage: u32,
    pub max_storage_buffers_per_shader_stage: u32,
    pub max_storage_textures_per_shader_stage: u32,
    pub max_uniform_buffers_per_shader_stage: u32,
    pub max_uniform_buffer_binding_size: u32,
    pub max_storage_buffer_binding_size: u32,
    pub max_vertex_buffers: u32,
    pub max_vertex_attributes: u32,
    pub max_vertex_buffer_array_stride: u32,
    pub max_push_constant_size: u32,
    pub min_uniform_buffer_offset_alignment: u32,
    pub min_storage_buffer_offset_alignment: u32,
    pub max_inter_stage_shader_components: u32,
    pub max_compute_workgroup_storage_size: u32,
    pub max_compute_invocations_per_workgroup: u32,
    pub max_compute_workgroup_size_x: u32,
    pub max_compute_workgroup_size_y: u32,
    pub max_compute_workgroup_size_z: u32,
    pub max_compute_workgroups_per_dimension: u32,
}

impl Limits {
    /// The limits that ask for nothing.
    pub open spec fn zero_spec() -> Limits {
        Limits {
            max_texture_dimension_1d: 0,
            max_texture_dimension_2d: 0,
            max_texture_dimension_3d: 0,
            max_texture_array_layers: 0,
            max_bind_groups: 0,
            max_dynamic_uniform_buffers_per_pipeline_layout: 0,
            max_dynamic_storage_buffers_per_pipeline_layout: 0,
            max_sampled_textures_per_shader_stage: 0,
            max_samplers_per_shader_stage: 0,
            max_storage_buffers_per_shader_stage: 0,
            max_storage_textures_per_shader_stage: 0,
            max_uniform_buffers_per_shader_stage: 0,
            max_uniform_buffer_binding_size: 0,
            max_storage_buffer_binding_size: 0,
            max_vertex_buffers: 0,
            max_vertex_attributes: 0,
            max_vertex_buffer_array_stride: 0,
            max_push_constant_size: 0,
            min_uniform_buffer_offset_alignment: 0,
            min_storage_buffer_offset_alignment: 0,
            max_inter_stage_shader_components: 0,
            max_compute_workgroup_storage_size: 0,
            max_compute_invocations_per_workgroup: 0,
            max_compute_workgroup_size_x: 0,
            max_compute_workgroup_size_y: 0,
            max_compute_workgroup_size_z: 0,
            max_compute_workgroups_per_dimension: 0,
        }
    }

    /// `self` with the three texture dimensions taken from `host`.
    pub open spec fn using_resolution_spec(self, host: Limits) -> Limits {
        Limits {
            max_texture_dimension_1d: host.max_texture_dimension_1d,
            max_texture_dimension_2d: host.max_texture_dimension_2d,
            max_texture_dimension_3d: host.max_texture_dimension_3d,
            ..self
        }
    }

    /// The field-by-field maximum of two limits.
    pub open spec fn merge_spec(self, other: Limits) -> Limits {
        Limits {
            max_texture_dimension_1d: max_u32(self.max_texture_dimension_1d, other.max_texture_dimension_1d),
            max_texture_dimension_2d: max_u32(self.max_texture_dimension_2d, other.max_texture_dimension_2d),
            max_texture_dimension_3d: max_u32(self.max_texture_dimension_3d, other.max_texture_dimension_3d),
            max_texture_array_layers: max_u32(self.max_texture_array_layers, other.max_texture_array_layers),
            max_bind_groups: max_u32(self.max_bind_groups, other.max_bind_groups),
            max_dynamic_uniform_buffers_per_pipeline_layout: max_u32(self.max_dynamic_uniform_buffers_per_pipeline_layout, other.max_dynamic_uniform_buffers_per_pipeline_layout),
            max_dynamic_storage_buffers_per_pipeline_layout: max_u32(self.max_dynamic_storage_buffers_per_pipeline_layout, other.max_dynamic_storage_buffers_per_pipeline_layout),
            max_sampled_textures_per_shader_stage: max_u32(self.max_sampled_textures_per_shader_stage, other.max_sampled_textures_per_shader_stage),
            max_samplers_per_shader_stage: max_u32(self.max_samplers_per_shader_stage, other.max_samplers_per_shader_stage),
            max_storage_buffers_per_shader_stage: max_u32(self.max_storage_buffers_per_shader_stage, other.max_storage_buffers_per_shader_stage),
            max_storage_textures_per_shader_stage: max_u32(self.max_storage_textures_per_shader_stage, other.max_storage_textures_per_shader_stage),
            max_uniform_buffers_per_shader_stage: max_u32(self.max_uniform_buffers_per_shader_stage, other.max_uniform_buffers_per_shader_stage),
            max_uniform_buffer_binding_size: max_u32(self.max_uniform_buffer_binding_size, other.max_uniform_buffer_binding_size),
            max_storage_buffer_binding_size: max_u32(self.max_storage_buffer_binding_size, other.max_storage_buffer_binding_size),
            max_vertex_buffers: max_u32(self.max_vertex_buffers, other.max_vertex_buffers),
            max_vertex_attributes: max_u32(self.max_vertex_attributes, other.max_vertex_attributes),
            max_vertex_buffer_array_stride: max_u32(self.max_vertex_buffer_array_stride, other.max_vertex_buffer_array_stride),
            max_push_constant_size: max_u32(self.max_push_constant_size, other.max_push_constant_size),
            min_uniform_buffer_offset_alignment: max_u32(self.min_uniform_buffer_offset_alignment, other.min_uniform_buffer_offset_alignment),
            min_storage_buffer_offset_alignment: max_u32(self.min_storage_buffer_offset_alignment, other.min_storage_buffer_offset_alignment),
            max_inter_stage_shader_components: max_u32(self.max_inter_stage_shader_components, other.max_inter_stage_shader_components),
            max_compute_workgroup_storage_size: max_u32(self.max_compute_workgroup_storage_size, other.max_compute_workgroup_storage_size),
            max_compute_invocations_per_workgroup: max_u32(self.max_compute_invocations_per_workgroup, other.max_compute_invocations_per_workgroup),
            max_compute_workgroup_size_x: max_u32(self.max_compute_workgroup_size_x, other.max_compute_workgroup_size_x),
            max_compute_workgroup_size_y: max_u32(self.max_compute_workgroup_size_y, other.max_compute_workgroup_size_y),
            max_compute_workgroup_size_z: max_u32(self.max_compute_workgroup_size_z, other.max_compute_workgroup_size_z),
            max_compute_workgroups_per_dimension: max_u32(self.max_compute_workgroups_per_dimension, other.max_compute_workgroups_per_dimension),
        }
    }

    pub fn zero() -> (r: Limits)
        ensures
            r == Limits::zero_spec(),
    {
        Limits {
            max_texture_dimension_1d: 0,
            max_texture_dimension_2d: 0,
            max_texture_dimension_3d: 0,
            max_texture_array_layers: 0,
            max_bind_groups: 0,
            max_dynamic_uniform_buffers_per_pipeline_layout: 0,
            max_dynamic_storage_buffers_per_pipeline_layout: 0,
            max_sampled_textures_per_shader_stage: 0,
            max_samplers_per_shader_stage: 0,
            max_storage_buffers_per_shader_stage: 0,
            max_storage_textures_per_shader_stage: 0,
            max_uniform_buffers_per_shader_stage: 0,
            max_uniform_buffer_binding_size: 0,
            max_storage_buffer_binding_size: 0,
            max_vertex_buffers: 0,
            max_vertex_attributes: 0,
            max_vertex_buffer_array_stride: 0,
            max_push_constant_size: 0,
            min_uniform_buffer_offset_alignment: 0,
            min_storage_buffer_offset_alignment: 0,
            max_inter_stage_shader_components: 0,
            max_compute_workgroup_storage_size: 0,
            max_compute_invocations_per_workgroup: 0,
            max_compute_workgroup_size_x: 0,
            max_compute_workgroup_size_y: 0,
            max_compute_workgroup_size_z: 0,
            max_compute_workgroups_per_dimension: 0,
        }
    }

    /// Widens the texture dimensions to what the host can do, so that a
    /// surface as large as the display is always within the limits.
    pub fn using_resolution(self, host: Limits) -> (r: Limits)
        ensures
            r == self.using_resolution_spec(host),
    {
        Limits {
            max_texture_dimension_1d: host.max_texture_dimension_1d,
            max_texture_dimension_2d: host.max_texture_dimension_2d,
            max_texture_dimension_3d: host.max_texture_dimension_3d,
            ..self
        }
    }

    pub fn merge(self, other: Limits) -> (r: Limits)
        ensures
            r == self.merge_spec(other),
    {
        Limits {
            max_texture_dimension_1d: larger(self.max_texture_dimension_1d, other.max_texture_dimension_1d),
            max_texture_dimension_2d: larger(self.max_texture_dimension_2d, other.max_texture_dimension_2d),
            max_texture_dimension_3d: larger(self.max_texture_dimension_3d, other.max_texture_dimension_3d),
            max_texture_array_layers: larger(self.max_texture_array_layers, other.max_texture_array_layers),
            max_bind_groups: larger(self.max_bind_groups, other.max_bind_groups),
            max_dynamic_uniform_buffers_per_pipeline_layout: larger(self.max_dynamic_uniform_buffers_per_pipeline_layout, other.max_dynamic_uniform_buffers_per_pipeline_layout),
            max_dynamic_storage_buffers_per_pipeline_layout: larger(self.max_dynamic_storage_buffers_per_pipeline_layout, other.max_dynamic_storage_buffers_per_pipeline_layout),
            max_sampled_textures_per_shader_stage: larger(self.max_sampled_textures_per_shader_stage, other.max_sampled_textures_per_shader_stage),
            max_samplers_per_shader_stage: larger(self.max_samplers_per_shader_stage, other.max_samplers_per_shader_stage),
            max_storage_buffers_per_shader_stage: larger(self.max_storage_buffers_per_shader_stage, other.max_storage_buffers_per_shader_stage),
            max_storage_textures_per_shader_stage: larger(self.max_storage_textures_per_shader_stage, other.max_storage_textures_per_shader_stage),
            max_uniform_buffers_per_shader_stage: larger(self.max_uniform_buffers_per_shader_stage, other.max_uniform_buffers_per_shader_stage),
            max_uniform_buffer_binding_size: larger(self.max_uniform_buffer_binding_size, other.max_uniform_buffer_binding_size),
            max_storage_buffer_binding_size: larger(self.max_storage_buffer_binding_size, other.max_storage_buffer_binding_size),
            max_vertex_buffers: larger(self.max_vertex_buffers, other.max_vertex_buffers),
            max_vertex_attributes: larger(self.max_vertex_attributes, other.max_vertex_attributes),
            max_vertex_buffer_array_stride: larger(self.max_vertex_buffer_array_stride, other.max_vertex_buffer_array_stride),
            max_push_constant_size: larger(self.max_push_constant_size, other.max_push_constant_size),
            min_uniform_buffer_offset_alignment: larger(self.min_uniform_buffer_offset_alignment, other.min_uniform_buffer_offset_alignment),
            min_storage_buffer_offset_alignment: larger(self.min_storage_buffer_offset_alignment, other.min_storage_buffer_offset_alignment),
            max_inter_stage_shader_components: larger(self.max_inter_stage_shader_components, other.max_inter_stage_shader_components),
            max_compute_workgroup_storage_size: larger(self.max_compute_workgroup_storage_size, other.max_compute_workgroup_storage_size),
            max_compute_invocations_per_workgroup: larger(self.max_compute_invocations_per_workgroup, other.max_compute_invocations_per_workgroup),
            max_compute_workgroup_size_x: larger(self.max_compute_workgroup_size_x, other.max_compute_workgroup_size_x),
            max_compute_workgroup_size_y: larger(self.max_compute_workgroup_size_y, other.max_compute_workgroup_size_y),
            max_compute_workgroup_size_z: larger(self.max_compute_workgroup_size_z, other.max_compute_workgroup_size_z),
            max_compute_workgroups_per_dimension: larger(self.max_compute_workgroups_per_dimension, other.max_compute_workgroups_per_dimension),
        }
    }
}

/// What a component, or a whole tree, asks of the GPU.
#[derive(Clone, Copy, Debug, PartialEq, Eq, Structural)]
pub struct ComponentRequirements {
    /// Features that are used where the host has them.
    pub optional_features: FeatureSet,
    /// Features without which the tree cannot run.
    pub required_features: FeatureSet,
    pub required_flags: DownlevelFlags,
    pub required_shader_model: ShaderModel,
    pub required_limits: Limits,
}

impl ComponentRequirements {
    /// The requirements that every host meets.
    pub open spec fn minimal_spec() -> ComponentRequirements {
        ComponentRequirements {
            optional_features: FeatureSet { bits: 0 },
            required_features: FeatureSet { bits: 0 },
            required_flags: DownlevelFlags { bits: 0 },
            required_shader_model: ShaderModel::Sm2,
            required_limits: Limits::zero_spec(),
        }
    }

    /// The requirements of two components taken together: sets are united,
    /// the shader model and each limit is the larger of the two.
    pub open spec fn merge_spec(self, other: ComponentRequirements) -> ComponentRequirements {
        ComponentRequirements {
            optional_features: FeatureSet {
                bits: self.optional_features.bits | other.optional_features.bits,
            },
            required_features: FeatureSet {
                bits: self.required_features.bits | other.required_features.bits,
            },
            required_flags: DownlevelFlags {
                bits: self.required_flags.bits | other.required_flags.bits,
            },
            required_shader_model: self.required_shader_model.higher_spec(
                other.required_shader_model,
            ),
            required_limits: self.required_limits.merge_spec(other.required_limits),
        }
    }

    pub fn minimal() -> (r: ComponentRequirements)
        ensures
            r == ComponentRequirements::minimal_spec(),
    {
        ComponentRequirements {
            optional_features: FeatureSet::empty(),
            required_features: FeatureSet::empty(),
            required_flags: DownlevelFlags::empty(),
            required_shader_model: ShaderModel::Sm2,
            required_limits: Limits::zero(),
        }
    }

    pub fn merge(self, other: ComponentRequirements) -> (r: ComponentRequirements)
        ensures
            r == self.merge_spec(other),
    {
        ComponentRequirements {
            optional_features: self.optional_features.union(other.optional_features),
            required_features: self.required_features.union(other.required_features),
            required_flags: self.required_flags.union(other.required_flags),
            required_shader_model: self.required_shader_model.higher(other.required_shader_model),
            required_limits: self.required_limits.merge(other.required_limits),
        }
    }
}

/// The requirements of a list of components taken together, first to last.
pub open spec fn aggregate_spec(parts: Seq<ComponentRequirements>) -> ComponentRequirements
    decreases parts.len(),
{
    if parts.len() == 0 {
        ComponentRequirements::minimal_spec()
    } else {
        aggregate_spec(parts.drop_last()).merge_spec(parts.last())
    }
}

/// Merges the requirements of a list of components.
pub fn aggregate(parts: &Vec<ComponentRequirements>) -> (r: ComponentRequirements)
    ensures
        r == aggregate_spec(parts@),
{
    let mut total = ComponentRequirements::minimal();
    let mut i: usize = 0;
    while i < parts.len()
        invariant
            i <= parts.len(),
            total == aggregate_spec(parts@.take(i as int)),
        decreases parts.len() - i,
    {
        proof {
            assert(parts@.take(i + 1).drop_last() == parts@.take(i as int));
        }
        total = total.merge(parts[i]);
        i = i + 1;
    }
    proof {
        assert(parts@.take(parts.len() as int) == parts@);
    }
    total
}

/// What a host's adapter offers.
#[derive(Clone, Copy, Debug, PartialEq, Eq, Structural)]
pub struct HostCapabilities {
    pub features: FeatureSet,
    pub flags: DownlevelFlags,
    pub shader_model: ShaderModel,
    pub limits: Limits,
}

/// The parameters with which a device is to be created.
#[derive(Clone, Copy, Debug, PartialEq, Eq, Structural)]
pub struct DeviceRequest {
    pub features: FeatureSet,
    pub limits: Limits,
}

/// Whether the host can run a tree with these requirements.
pub open spec fn host_suffices(required: ComponentRequirements, host: HostCapabilities) -> bool {
    &&& host.shader_model.rank_spec() >= required.required_shader_model.rank_spec()
    &&& required.required_flags.within(host.flags)
    &&& required.required_features.within(host.features)
}

/// The outcome of a negotiation. The shader model is looked at first, then
/// the downlevel flags, then the required features; the first of them that
/// the host fails is reported.
pub open spec fn negotiate_spec(required: ComponentRequirements, host: HostCapabilities) -> Result<
    DeviceRequest,
    CardinalError,
> {
    if host.shader_model.rank_spec() < required.required_shader_model.rank_spec() {
        Err(
            CardinalError::GFX(
                GFXError::ShaderModelTooLow {
                    required: required.required_shader_model,
                    available: host.shader_model,
                },
            ),
        )
    } else if !required.required_flags.within(host.flags) {
        Err(
            CardinalError::GFX(
                GFXError::MissingDownlevelFlags(
                    DownlevelFlags { bits: required.required_flags.bits & !host.flags.bits },
                ),
            ),
        )
    } else if !required.required_features.within(host.features) {
        Err(
            CardinalError::GFX(
                GFXError::MissingFeatures(
                    FeatureSet { bits: required.required_features.bits & !host.features.bits },
                ),
            ),
        )
    } else {
        Ok(
            DeviceRequest {
                features: FeatureSet {
                    bits: (required.optional_features.bits & host.features.bits)
                        | required.required_features.bits,
                },
                limits: required.required_limits.using_resolution_spec(host.limits),
            },
        )
    }
}

/// Reconciles a tree's requirements with what the host offers. On success
/// the request holds the optional features that the host has together with
/// all required ones, and the declared limits widened to the host's texture
/// dimensions. On failure no request exists, so no device can be created.
pub fn negotiate(required: &ComponentRequirements, host: &HostCapabilities) -> (r: Result<
    DeviceRequest,
    CardinalError,
>)
    ensures
        r == negotiate_spec(*required, *host),
        r is Ok <==> host_suffices(*required, *host),
{
    if host.shader_model.rank() < required.required_shader_model.rank() {
        Err(
            CardinalError::GFX(
                GFXError::ShaderModelTooLow {
                    required: required.required_shader_model,
                    available: host.shader_model,
                },
            ),
        )
    } else if !required.required_flags.is_within(host.flags) {
        Err(
            CardinalError::GFX(
                GFXError::MissingDownlevelFlags(required.required_flags.difference(host.flags)),
            ),
        )
    } else if !required.required_features.is_within(host.features) {
        Err(
            CardinalError::GFX(
                GFXError::MissingFeatures(required.required_features.difference(host.features)),
            ),
        )
    } else {
        Ok(
            DeviceRequest {
                features: required.optional_features.intersection(host.features).union(
                    required.required_features,
                ),
                limits: required.required_limits.using_resolution(host.limits),
            },
        )
    }
}

/// Each feature of a set that lies within another is in the other.
pub proof fn within_covers_each_feature(a: FeatureSet, b: FeatureSet, feature: u64)
    requires
        feature < 64,
        a.within(b),
        a.has(feature),
    ensures
        b.has(feature),
{
    let x = a.bits;
    let y = b.bits;
    assert(x & !y == 0 && feature < 64 && (x >> feature) & 1 == 1 ==> (y >> feature) & 1 == 1)
        by (bit_vector);
}

/// A negotiation fails whenever some required feature is absent from the
/// host.
pub proof fn missing_required_feature_fails(
    required: ComponentRequirements,
    host: HostCapabilities,
    feature: u64,
)
    requires
        feature < 64,
        required.required_features.has(feature),
        !host.features.has(feature),
    ensures
        negotiate_spec(required, host) is Err,
{
    let x = required.required_features.bits;
    let y = host.features.bits;
    assert(feature < 64 && (x >> feature) & 1 == 1 && (y >> feature) & 1 != 1 ==> x & !y != 0)
        by (bit_vector);
}

/// A feature is requested from the device exactly when it is required, or
/// optional and offered by the host.
pub proof fn effective_features_elementwise(
    required: ComponentRequirements,
    host: HostCapabilities,
    feature: u64,
)
    requires
        feature < 64,
        host_suffices(required, host),
    ensures
        negotiate_spec(required, host) is Ok,
        negotiate_spec(required, host)->Ok_0.features.has(feature) <==> (
        required.required_features.has(feature) || (required.optional_features.has(feature)
            && host.features.has(feature))),
{
    let o = required.optional_features.bits;
    let q = required.required_features.bits;
    let h = host.features.bits;
    assert(feature < 64 ==> ((((o & h) | q) >> feature) & 1 == 1 <==> ((q >> feature) & 1 == 1 || (
    (o >> feature) & 1 == 1 && (h >> feature) & 1 == 1)))) by (bit_vector);
}

} // verus!

use ash::vk;
use ferrum::command::{ClearValues, Command, DrawRecorder, NoopRecorder, PassContext, Pipeline, Recorder};
use ferrum::descriptor_manager::{has_enough, DescriptorManager, DescriptorPool, DescriptorPoolSize, MAX_SETS};
use ferrum::game_object::{Material, Renderable};
use ferrum::handles::Arena;
use ferrum::name_table::NameTable;
use ferrum::queue_pool::{QueueFamilyProperties, QueueFlags, QueuePool};
use ferrum::render_pass::{
    AttachmentReference, LoadOp, RenderPassBuilder, StoreOp, Subpass, SubpassDesc,
};
use ferrum::resources::{LayoutHandle, ResourceManager};
use ferrum::scene::Scene;
use ferrum::types::{
    AttributeDescriptions, BindPoint, BindingDescriptions, ComputePipeline, DescriptorSetLayout,
    DescriptorType, Extent2D, Format, GraphicsPipeline, ImageLayout, ImageUsage, LayoutBinding,
    PipelineLayout, PushConstantRange, ShaderStages, Vertex, VertexInputRate,
};

fn layout(raw: u64) -> PipelineLayout {
    PipelineLayout { raw, set_layouts: vec![], push_constants: vec![] }
}

fn graphics(raw: u64, layout: u64) -> Pipeline {
    Pipeline::Graphics(GraphicsPipeline { raw, layout })
}

#[test]
fn arena_hands_out_distinct_keys_in_order() {
    let mut arena: Arena<u32> = Arena::new();
    assert_eq!(arena.len(), 0);
    let a = arena.insert(10);
    let b = arena.insert(20);
    let c = arena.insert(30);
    assert_ne!(a, b);
    assert_ne!(b, c);
    assert_ne!(a, c);
    assert_eq!(arena.len(), 3);
    assert_eq!(arena.key_at(0), a);
    assert_eq!(arena.key_at(1), b);
    assert_eq!(arena.key_at(2), c);
    assert_eq!(arena.position(a), Some(0));
    assert_eq!(arena.position(b), Some(1));
    assert_eq!(arena.position(c), Some(2));
    assert_eq!(arena.get(b), Some(&20));
    assert_eq!(*arena.item_at(2), 30);
    assert!(arena.contains(a));
}

#[test]
fn arena_keys_are_slot_map_keys() {
    let mut arena: Arena<u8> = Arena::new();
    let key = arena.insert(1);
    // The version sits in the upper half and is odd for a live key.
    assert_eq!((key >> 32) & 1, 1);
    let mut reference: slotmap::SlotMap<slotmap::DefaultKey, usize> = slotmap::SlotMap::new();
    let expected = slotmap::Key::data(&reference.insert(0)).as_ffi();
    assert_eq!(key, expected);
}

#[test]
fn arena_does_not_know_foreign_keys() {
    let mut arena: Arena<u32> = Arena::new();
    let a = arena.insert(1);
    assert_eq!(arena.position(0), None);
    assert_eq!(arena.position(a + 1), None);
    assert_eq!(arena.position(a ^ (1 << 32)), None);
    assert_eq!(arena.position(a + (2 << 32)), None);
    assert_eq!(arena.get(u64::MAX), None);
    assert!(!arena.contains(12345));
    let empty: Arena<u32> = Arena::new();
    assert_eq!(empty.position(a), None);
}

#[test]
fn arena_replace_keeps_the_key() {
    let mut arena: Arena<u32> = Arena::new();
    let a = arena.insert(1);
    let b = arena.insert(2);
    arena.replace(0, 7);
    assert_eq!(arena.get(a), Some(&7));
    assert_eq!(arena.get(b), Some(&2));
    assert_eq!(arena.key_at(0), a);
}

#[test]
fn name_table_keeps_first_place_and_last_value() {
    let mut table: NameTable<u32> = NameTable::new();
    assert_eq!(table.insert("a", 1), None);
    assert_eq!(table.insert("b", 2), None);
    assert_eq!(table.insert("a", 3), Some(1));
    assert_eq!(table.len(), 2);
    assert_eq!(table.position("a"), Some(0));
    assert_eq!(table.position("b"), Some(1));
    assert_eq!(table.get("a"), Some(&3));
    assert_eq!(table.get("b"), Some(&2));
    assert_eq!(table.get("c"), None);
    assert_eq!(table.get(""), None);
}

#[test]
fn resource_manager_finds_layouts_by_handle_and_name() {
    let mut res = ResourceManager::new();
    assert!(res.can_add());
    let first = res.add_layout(layout(1));
    let second = res.cache_layout("Layout 1", layout(2));
    assert_ne!(first, second);
    assert_eq!(res.get_layout(first), Some(&layout(1)));
    assert_eq!(res.get_layout(second), Some(&layout(2)));
    assert_eq!(res.get_layout_from_cache("Layout 1"), Some((&layout(2), second)));
    assert_eq!(res.get_layout_from_cache("Layout 2"), None);
    assert_eq!(res.get_layout(LayoutHandle { key: 0 }), None);
}

#[test]
fn caching_a_name_again_replaces_the_binding_and_keeps_the_prior_layout() {
    let mut res = ResourceManager::new();
    let first = res.cache_layout("shared", layout(1));
    let second = res.cache_layout("shared", layout(2));
    assert_ne!(first, second);
    assert_eq!(res.get_layout_from_cache("shared"), Some((&layout(2), second)));
    assert_eq!(res.get_layout(first), Some(&layout(1)));
}

fn family(graphics: bool, compute: bool, transfer: bool, queue_count: u32) -> QueueFamilyProperties {
    QueueFamilyProperties {
        queue_flags: QueueFlags { graphics, compute, transfer, sparse_binding: false },
        queue_count,
    }
}

#[test]
fn queue_pool_takes_the_last_capable_family() {
    let pool = QueuePool::new(
        vec![family(true, true, true, 2), family(false, false, true, 1), family(true, false, false, 1)],
        vec![vec![10, 11], vec![20], vec![30]],
    )
    .unwrap();
    assert_eq!(pool.get_queue(QueueFlags::graphics()), Some(30));
    let compute = QueueFlags { graphics: false, compute: true, transfer: false, sparse_binding: false };
    assert_eq!(pool.get_queue(compute), Some(10));
    let transfer = QueueFlags { graphics: false, compute: false, transfer: true, sparse_binding: false };
    assert_eq!(pool.get_queue(transfer), Some(20));
    let sparse = QueueFlags { graphics: false, compute: false, transfer: false, sparse_binding: true };
    assert_eq!(pool.get_queue(sparse), None);
    let nothing = QueueFlags { graphics: false, compute: false, transfer: false, sparse_binding: false };
    assert_eq!(pool.get_queue(nothing), Some(30));
}

#[test]
fn queue_pool_wants_the_shape_its_families_report() {
    assert!(QueuePool::new(vec![family(true, false, false, 2)], vec![vec![1]]).is_none());
    assert!(QueuePool::new(vec![family(true, false, false, 1)], vec![]).is_none());
    assert!(QueuePool::new(vec![family(true, false, false, 0)], vec![vec![]]).is_none());
    assert!(QueuePool::new(vec![], vec![]).is_some());
    assert_eq!(QueuePool::new(vec![], vec![]).unwrap().get_queue(QueueFlags::graphics()), None);
}

#[test]
fn queue_flags_contain_what_ash_says_they_contain() {
    let flags = |graphics, compute, transfer| QueueFlags { graphics, compute, transfer, sparse_binding: false };
    let all = [
        (vk::QueueFlags::GRAPHICS, flags(true, false, false)),
        (vk::QueueFlags::COMPUTE, flags(false, true, false)),
        (vk::QueueFlags::GRAPHICS | vk::QueueFlags::TRANSFER, flags(true, false, true)),
        (vk::QueueFlags::empty(), flags(false, false, false)),
    ];
    for (raw_have, have) in all {
        for (raw_want, want) in all {
            assert_eq!(have.contains(want), raw_have.contains(raw_want));
        }
    }
}

#[test]
fn scene_lists_renderables_by_pass_name() {
    let mut scene = Scene::new();
    assert!(scene.renderables_for("a").is_empty());
    let item = Renderable::new(5, Material::new("a", 9));
    assert_eq!(item.transform_index(), 9);
    assert_eq!(item.material.pass, "a");
    scene.set_renderables("a", vec![item.clone(), item.clone()]);
    scene.set_renderables("b", vec![]);
    assert_eq!(scene.renderables_for("a").len(), 2);
    assert_eq!(scene.renderables_for("a")[0].mesh, 5);
    assert!(scene.renderables_for("b").is_empty());
    assert!(scene.renderables_for("c").is_empty());
    scene.set_renderables("a", vec![item]);
    assert_eq!(scene.renderables_for("a").len(), 1);
}

fn context(sets: Vec<u64>) -> PassContext {
    PassContext::new(77, graphics(21, 11), sets, Extent2D { width: 800, height: 600 }).unwrap()
}

#[test]
fn bind_pipeline_binds_pipeline_sets_viewport_and_scissor() {
    let mut ctx = context(vec![60, 61]);
    ctx.bind_pipeline();
    let extent = Extent2D { width: 800, height: 600 };
    assert_eq!(
        ctx.commands(),
        &vec![
            Command::BindPipeline { bind_point: BindPoint::Graphics, pipeline: 21 },
            Command::BindDescriptorSet { bind_point: BindPoint::Graphics, layout: 11, index: 0, set: 60 },
            Command::BindDescriptorSet { bind_point: BindPoint::Graphics, layout: 11, index: 1, set: 61 },
            Command::SetViewport { extent },
            Command::SetScissor { extent },
        ]
    );
}

#[test]
fn bind_pipeline_without_sets_binds_none() {
    let mut ctx = context(vec![]);
    ctx.bind_pipeline();
    let extent = Extent2D { width: 800, height: 600 };
    assert_eq!(
        ctx.finish(),
        vec![
            Command::BindPipeline { bind_point: BindPoint::Graphics, pipeline: 21 },
            Command::SetViewport { extent },
            Command::SetScissor { extent },
        ]
    );
}

#[test]
fn compute_pipeline_binds_at_the_compute_bind_point() {
    let pipeline = Pipeline::Compute(ComputePipeline { raw: 5, layout: 6 });
    assert_eq!(pipeline.raw(), 5);
    assert_eq!(pipeline.layout(), 6);
    assert_eq!(pipeline.bind_point(), BindPoint::Compute);
    let mut ctx = PassContext::new(1, pipeline, vec![9], Extent2D { width: 1, height: 2 }).unwrap();
    ctx.bind_pipeline();
    assert_eq!(ctx.commands()[0], Command::BindPipeline { bind_point: BindPoint::Compute, pipeline: 5 });
    assert_eq!(
        ctx.commands()[1],
        Command::BindDescriptorSet { bind_point: BindPoint::Compute, layout: 6, index: 0, set: 9 }
    );
}

#[test]
fn draws_and_push_constants_are_recorded_in_order() {
    let mut ctx = context(vec![]);
    assert_eq!(ctx.resolution(), (800, 600));
    assert_eq!(ctx.cmd(), 77);
    ctx.draw(3);
    ctx.draw_indexed(36);
    ctx.push_constants(ShaderStages::vertex(), 16, &[1, 2, 3, 4]);
    assert_eq!(
        ctx.finish(),
        vec![
            Command::Draw { vertex_count: 3, instance_count: 1, first_vertex: 0, first_instance: 0 },
            Command::DrawIndexed {
                index_count: 36,
                instance_count: 1,
                first_index: 0,
                vertex_offset: 0,
                first_instance: 0
            },
            Command::PushConstants {
                layout: 11,
                stages: ShaderStages { vertex: true, fragment: false, compute: false },
                offset: 16,
                data: vec![1, 2, 3, 4]
            },
        ]
    );
}

#[test]
fn stock_recorders_record_what_they_say() {
    let mut ctx = context(vec![]);
    NoopRecorder {}.record(&mut ctx, &[]);
    assert!(ctx.commands().is_empty());
    DrawRecorder { vertex_count: 6 }.record(&mut ctx, &[]);
    assert_eq!(ctx.commands().len(), 4);
    assert_eq!(
        ctx.commands()[3],
        Command::Draw { vertex_count: 6, instance_count: 1, first_vertex: 0, first_instance: 0 }
    );
}

#[test]
fn clear_values_are_five_of_255_and_far_depth() {
    assert_eq!(
        ClearValues::default_clear(),
        ClearValues { red: 5, green: 5, blue: 5, alpha: 255, depth: 255, stencil: 0 }
    );
}

#[test]
fn formats_and_budget_match_vulkan() {
    assert_eq!(Format::r8g8b8a8_srgb().raw, vk::Format::R8G8B8A8_SRGB.as_raw());
    assert_eq!(Format::d32_sfloat().raw, vk::Format::D32_SFLOAT.as_raw());
    assert_eq!(Format::r32g32b32_sfloat().raw, vk::Format::R32G32B32_SFLOAT.as_raw());
    assert_eq!(
        PushConstantRange::default_budget(),
        PushConstantRange { stages: ShaderStages::vertex(), offset: 0, size: 128 }
    );
    let usage = ImageUsage::color_target();
    assert!(usage.color_attachment && usage.sampled);
    assert_eq!(ImageUsage { color_attachment: true, sampled: true, ..ImageUsage::empty() }, usage);
    assert_eq!(
        LayoutBinding::sampled_image(3),
        LayoutBinding {
            binding: 3,
            count: 1,
            ty: DescriptorType::CombinedImageSampler,
            stages: ShaderStages::fragment()
        }
    );
}

#[test]
fn descriptor_set_layout_knows_its_bindings() {
    let layout = DescriptorSetLayout {
        raw: 1,
        bindings: vec![LayoutBinding::sampled_image(0), LayoutBinding::sampled_image(4)],
    };
    assert!(layout.has_binding(0));
    assert!(layout.has_binding(4));
    assert!(!layout.has_binding(1));
    assert!(!DescriptorSetLayout { raw: 2, bindings: vec![] }.has_binding(0));
}

#[test]
fn vertex_layout_is_two_vec3_in_24_bytes() {
    let attributes = Vertex::attr_desc();
    assert_eq!(attributes.len(), 2);
    assert_eq!((attributes[0].location, attributes[0].binding, attributes[0].offset), (0, 0, 0));
    assert_eq!((attributes[1].location, attributes[1].binding, attributes[1].offset), (1, 0, 12));
    assert_eq!(attributes[0].format, Format::r32g32b32_sfloat());
    assert_eq!(attributes[1].format, Format::r32g32b32_sfloat());
    let bindings = Vertex::bind_desc();
    assert_eq!(bindings.len(), 1);
    assert_eq!(bindings[0].binding, 0);
    assert_eq!(bindings[0].stride, 24);
    assert_eq!(bindings[0].stride as usize, std::mem::size_of::<Vertex>());
    assert_eq!(bindings[0].input_rate, VertexInputRate::Vertex);
    let vertex = Vertex { pos: [1.0f32.to_bits(), 0, 0], color: [0, 0, 0] };
    assert_eq!(f32::from_bits(vertex.pos[0]), 1.0);
}

#[test]
fn descriptor_pool_has_the_design_sizes() {
    let sizes = DescriptorManager::pool_sizes();
    assert_eq!(
        sizes,
        vec![
            DescriptorPoolSize { ty: DescriptorType::Sampler, descriptor_count: 500 },
            DescriptorPoolSize { ty: DescriptorType::CombinedImageSampler, descriptor_count: 5000 },
            DescriptorPoolSize { ty: DescriptorType::UniformBuffer, descriptor_count: 5000 },
            DescriptorPoolSize { ty: DescriptorType::StorageBuffer, descriptor_count: 500 },
            DescriptorPoolSize { ty: DescriptorType::StorageImage, descriptor_count: 500 },
        ]
    );
    assert_eq!(MAX_SETS, 100_000);
    assert!(DescriptorManager::suffices(&sizes, MAX_SETS));
    assert!(!DescriptorManager::suffices(&sizes, MAX_SETS - 1));
    assert_eq!(DescriptorManager::new(DescriptorPool { raw: 9 }).pool(), DescriptorPool { raw: 9 });
}

#[test]
fn descriptor_pool_sizes_add_up_per_type() {
    let split = vec![
        DescriptorPoolSize { ty: DescriptorType::Sampler, descriptor_count: 499 },
        DescriptorPoolSize { ty: DescriptorType::CombinedImageSampler, descriptor_count: u32::MAX },
        DescriptorPoolSize { ty: DescriptorType::CombinedImageSampler, descriptor_count: u32::MAX },
        DescriptorPoolSize { ty: DescriptorType::Sampler, descriptor_count: 1 },
    ];
    assert!(has_enough(&split, DescriptorType::Sampler));
    assert!(has_enough(&split, DescriptorType::CombinedImageSampler));
    assert!(!has_enough(&split, DescriptorType::UniformBuffer));
    assert!(!has_enough(&split[..1].to_vec(), DescriptorType::Sampler));
    assert!(!DescriptorManager::suffices(&split, MAX_SETS));
}

#[test]
fn shared_render_pass_clears_colour_and_depth() {
    let color = Format::r8g8b8a8_srgb();
    let depth = Format::d32_sfloat();
    let pass = RenderPassBuilder::default(color, depth);
    let attachments = pass.attachments.unwrap();
    assert_eq!(attachments.len(), 2);
    assert_eq!(attachments[0].format, color);
    assert_eq!(attachments[0].load_op, LoadOp::Clear);
    assert_eq!(attachments[0].store_op, StoreOp::Store);
    assert_eq!(attachments[0].initial_layout, ImageLayout::Undefined);
    assert_eq!(attachments[0].final_layout, ImageLayout::PresentSrc);
    assert_eq!(attachments[1].format, depth);
    assert_eq!(attachments[1].load_op, LoadOp::Clear);
    assert_eq!(attachments[1].store_op, StoreOp::DontCare);
    assert_eq!(attachments[1].final_layout, ImageLayout::DepthStencilAttachmentOptimal);
    let dependencies = pass.dependencies.unwrap();
    assert_eq!(dependencies.len(), 1);
    assert_eq!(dependencies[0].src_subpass, None);
    assert_eq!(dependencies[0].dst_subpass, 0);
    assert!(dependencies[0].by_region);
    assert!(dependencies[0].dst_access_mask.color_attachment_write);
    assert!(dependencies[0].dst_access_mask.depth_stencil_attachment_write);
    assert!(!dependencies[0].src_access_mask.color_attachment_write);
    let subpasses = pass.subpasses.unwrap();
    assert_eq!(subpasses.len(), 1);
    assert_eq!(subpasses[0].bind_point, BindPoint::Graphics);
    assert_eq!(
        subpasses[0].color_attachments,
        vec![AttachmentReference { attachment: 0, layout: ImageLayout::ColorAttachmentOptimal }]
    );
    assert_eq!(
        subpasses[0].depth_attachment,
        Some(AttachmentReference { attachment: 1, layout: ImageLayout::DepthStencilAttachmentOptimal })
    );
}

#[test]
fn offscreen_render_pass_leaves_colour_in_attachment_layout() {
    let pass = RenderPassBuilder::offscreen(Format::r8g8b8a8_srgb(), Format::d32_sfloat());
    let swapchain = RenderPassBuilder::default(Format::r8g8b8a8_srgb(), Format::d32_sfloat());
    let attachments = pass.attachments.clone().unwrap();
    assert_eq!(attachments[0].final_layout, ImageLayout::ColorAttachmentOptimal);
    assert_eq!(pass.subpasses, swapchain.subpasses);
    assert_eq!(pass.dependencies, swapchain.dependencies);
    assert_eq!(attachments[1], swapchain.attachments.unwrap()[1]);
}

#[test]
fn subpass_description_collects_attachments() {
    let first = AttachmentReference { attachment: 0, layout: ImageLayout::ColorAttachmentOptimal };
    let second = AttachmentReference { attachment: 2, layout: ImageLayout::ShaderReadOnlyOptimal };
    let desc = SubpassDesc::empty()
        .add_color_attachment_ref(first)
        .add_input_attachment_ref(second)
        .with_bind_point(BindPoint::Compute)
        .flags(4);
    let subpass = Subpass::new(desc);
    assert_eq!(subpass.color_attachments, vec![first]);
    assert_eq!(subpass.input_attachments, vec![second]);
    assert_eq!(subpass.depth_attachment, None);
    assert_eq!(subpass.bind_point, BindPoint::Compute);
    assert_eq!(subpass.flags, 4);
    let replaced = SubpassDesc::empty()
        .add_color_attachment_ref(first)
        .color_attachments(vec![second])
        .input_attachments(vec![first, second])
        .add_depth_attachment_ref(first)
        .with_bind_point(BindPoint::Graphics);
    let subpass = Subpass::new(replaced);
    assert_eq!(subpass.color_attachments, vec![second]);
    assert_eq!(subpass.input_attachments, vec![first, second]);
    assert_eq!(subpass.depth_attachment, Some(first));
    assert_eq!(subpass.flags, 0);
}

#[test]
fn queue_requests_list_every_queue_of_every_family() {
    let props = vec![family(true, false, false, 2), family(false, true, false, 0), family(false, false, true, 3)];
    assert_eq!(QueuePool::requests(&props), vec![(0, 0), (0, 1), (2, 0), (2, 1), (2, 2)]);
    assert!(QueuePool::requests(&vec![]).is_empty());
}

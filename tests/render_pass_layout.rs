use vision::{
    framebuffer_attachments, layout_transition, Extent2D, ImageAspect, ImageLayout, LayoutTransition,
    LoadOp, RenderPassDescription, StoreOp,
};

const COLOR: i32 = 50;
const DEPTH: i32 = 126;

#[test]
fn single_sample_has_color_and_depth_only() {
    let d = RenderPassDescription::create(Extent2D { width: 800, height: 600 }, COLOR, DEPTH, 1);
    let a = &d.layout.attachments;
    assert_eq!(a.len(), 2);
    assert_eq!(a[0].format, COLOR);
    assert_eq!(a[0].final_layout, ImageLayout::PresentSrc);
    assert_eq!(a[1].format, DEPTH);
    assert_eq!(a[1].final_layout, ImageLayout::DepthStencilAttachmentOptimal);
    assert!(d.layout.subpass.resolve_attachments.is_empty());
    assert!(d.color_attachment().is_none());
}

#[test]
fn four_samples_add_a_resolve_attachment() {
    let d = RenderPassDescription::create(Extent2D { width: 800, height: 600 }, COLOR, DEPTH, 4);
    let a = &d.layout.attachments;
    assert_eq!(a.len(), 3);
    assert_eq!(a[0].samples, 4);
    assert_ne!(a[0].final_layout, ImageLayout::PresentSrc);
    assert_eq!(a[0].final_layout, ImageLayout::ColorAttachmentOptimal);
    assert_eq!(a[1].samples, 4);
    assert_eq!(a[2].samples, 1);
    assert_eq!(a[2].final_layout, ImageLayout::PresentSrc);
    assert_eq!(d.layout.subpass.resolve_attachments.len(), 1);
    assert_eq!(d.layout.subpass.resolve_attachments[0].attachment, 2);
    let color = d.color_attachment().unwrap();
    assert_eq!(color.sample_count, 4);
    assert_eq!(color.usage, 0x40 | 0x10);
    assert_eq!(color.aspect, ImageAspect::Color);
}

#[test]
fn depth_attachment_drops_contents_and_stencil() {
    for samples in [1u32, 2, 8] {
        let d = RenderPassDescription::create(Extent2D { width: 64, height: 64 }, COLOR, DEPTH, samples);
        let depth = d.layout.attachments[1];
        assert_eq!(depth.load_op, LoadOp::Clear);
        assert_eq!(depth.store_op, StoreOp::DontCare);
        assert_eq!(depth.stencil_load_op, LoadOp::DontCare);
        assert_eq!(depth.stencil_store_op, StoreOp::DontCare);
        assert_eq!(d.layout.subpass.depth_stencil_attachment.attachment, 1);
        let t = d.depth_attachment();
        assert_eq!(t.format, DEPTH);
        assert_eq!(t.usage, 0x20);
        assert_eq!(t.memory_properties, 0x1);
        assert_eq!(t.layout, ImageLayout::DepthStencilAttachmentOptimal);
        assert_eq!(t.aspect, ImageAspect::Depth);
        assert_eq!(t.extent, Extent2D { width: 64, height: 64 });
    }
}

#[test]
fn dependency_waits_for_color_output() {
    let d = RenderPassDescription::create(Extent2D { width: 64, height: 64 }, COLOR, DEPTH, 1);
    let dep = d.layout.dependency;
    assert_eq!(dep.src_subpass, u32::MAX);
    assert_eq!(dep.dst_subpass, 0);
    assert_eq!(dep.src_stage_mask, 0x400);
    assert_eq!(dep.dst_stage_mask, 0x400);
    assert_eq!(dep.src_access_mask, 0);
    assert_eq!(dep.dst_access_mask, 0x180);
}

#[test]
fn framebuffer_order_follows_sampling() {
    assert_eq!(framebuffer_attachments(Some(7), 8, 9), vec![7, 8, 9]);
    assert_eq!(framebuffer_attachments(None, 8, 9), vec![9, 8]);
}

#[test]
fn attachment_images_get_their_barriers() {
    assert_eq!(
        layout_transition(ImageLayout::Undefined, ImageLayout::ColorAttachmentOptimal),
        Some(LayoutTransition { src_access_mask: 0, dst_access_mask: 0x180, src_stage_mask: 0x1, dst_stage_mask: 0x400 })
    );
    assert_eq!(
        layout_transition(ImageLayout::Undefined, ImageLayout::DepthStencilAttachmentOptimal),
        Some(LayoutTransition { src_access_mask: 0, dst_access_mask: 0x600, src_stage_mask: 0x1, dst_stage_mask: 0x100 })
    );
    assert_eq!(layout_transition(ImageLayout::PresentSrc, ImageLayout::ColorAttachmentOptimal), None);
}

//! The painting of the desktop: how the surface and the texture are set up, what is written to the
//! texture, and what comes of a frame.
use crate::events::FrameRegion;
use crate::image::{Channel, IMAGE_FORMAT};
use vstd::prelude::*;
use vstd::string::*;

verus! {

/// How finished frames get to the screen.
#[derive(Debug, Clone, Copy, PartialEq, Eq, Structural)]
pub enum PresentMode {
    AutoVsync,
    AutoNoVsync,
    Fifo,
    FifoRelaxed,
    Immediate,
    Mailbox,
}

/// The formats of a texture of four bytes per pixel that the client knows.
#[derive(Debug, Clone, Copy, PartialEq, Eq, Structural)]
pub enum TextureFormat {
    Rgba8Unorm,
    Rgba8UnormSrgb,
    Bgra8Unorm,
    Bgra8UnormSrgb,
}

impl TextureFormat {
    /// What each byte of a pixel holds.
    pub open spec fn channels(self) -> Seq<Channel> {
        match self {
            TextureFormat::Rgba8Unorm | TextureFormat::Rgba8UnormSrgb => seq![
                Channel::Red,
                Channel::Green,
                Channel::Blue,
                Channel::Alpha,
            ],
            TextureFormat::Bgra8Unorm | TextureFormat::Bgra8UnormSrgb => seq![
                Channel::Blue,
                Channel::Green,
                Channel::Red,
                Channel::Alpha,
            ],
        }
    }
}

/// What a texture may be used for.
#[derive(Debug, Clone, Copy, PartialEq, Eq, Structural)]
pub struct TextureUsages {
    pub copy_src: bool,
    pub copy_dst: bool,
    pub texture_binding: bool,
    pub storage_binding: bool,
    pub render_attachment: bool,
}

/// The number of dimensions of a texture.
#[derive(Debug, Clone, Copy, PartialEq, Eq, Structural)]
pub enum TextureDimension {
    D1,
    D2,
    D3,
}

/// The images of the surface are painted on, and nothing else.
pub open spec fn surface_usages() -> TextureUsages {
    TextureUsages {
        copy_src: false,
        copy_dst: false,
        texture_binding: false,
        storage_binding: false,
        render_attachment: true,
    }
}

/// The desktop texture is written to and painted from.
pub open spec fn desktop_usages() -> TextureUsages {
    TextureUsages {
        copy_src: false,
        copy_dst: true,
        texture_binding: true,
        storage_binding: false,
        render_attachment: false,
    }
}

/// The settings of the surface that frames are shown on.
#[derive(Debug)]
pub struct SurfaceConfiguration {
    pub usage: TextureUsages,
    /// Which of the formats that the surface offers is used.
    pub format: usize,
    pub width: u32,
    pub height: u32,
    pub present_mode: PresentMode,
    /// Which of the alpha modes that the surface offers is used.
    pub alpha_mode: usize,
    pub desired_maximum_frame_latency: u32,
    /// The further formats in which the images can be looked at.
    pub view_formats: Vec<TextureFormat>,
}

/// The settings of the texture that holds the desktop.
#[derive(Debug)]
pub struct TextureDescription {
    pub width: u32,
    pub height: u32,
    pub depth_or_array_layers: u32,
    pub mip_level_count: u32,
    pub sample_count: u32,
    pub dimension: TextureDimension,
    pub format: TextureFormat,
    pub usage: TextureUsages,
    /// The further formats in which the texture can be looked at.
    pub view_formats: Vec<TextureFormat>,
}

/// The contents of a [`TextureDescription`].
pub struct TextureDescriptionView {
    pub width: u32,
    pub height: u32,
    pub depth_or_array_layers: u32,
    pub mip_level_count: u32,
    pub sample_count: u32,
    pub dimension: TextureDimension,
    pub format: TextureFormat,
    pub usage: TextureUsages,
    pub view_formats: Seq<TextureFormat>,
}

impl View for TextureDescription {
    type V = TextureDescriptionView;

    open spec fn view(&self) -> TextureDescriptionView {
        TextureDescriptionView {
            width: self.width,
            height: self.height,
            depth_or_array_layers: self.depth_or_array_layers,
            mip_level_count: self.mip_level_count,
            sample_count: self.sample_count,
            dimension: self.dimension,
            format: self.format,
            usage: self.usage,
            view_formats: self.view_formats@,
        }
    }
}

/// A write of packed pixels to the desktop texture.
#[derive(Debug, Clone, Copy, PartialEq, Eq, Structural)]
pub struct TextureWrite {
    pub mip_level: u32,
    pub x: u32,
    pub y: u32,
    pub z: u32,
    pub offset: u64,
    pub bytes_per_row: u32,
    pub rows_per_image: u32,
    pub width: u32,
    pub height: u32,
    pub depth_or_array_layers: u32,
}

/// The write that puts a region of the given size at the given place: four bytes per pixel, the
/// rows one after the other.
pub open spec fn write_of(x: u32, y: u32, width: u32, height: u32) -> TextureWrite {
    TextureWrite {
        mip_level: 0,
        x,
        y,
        z: 0,
        offset: 0,
        bytes_per_row: (width * 4) as u32,
        rows_per_image: height,
        width,
        height,
        depth_or_array_layers: 1,
    }
}

/// The bytes of a row of this width can be counted in thirty-two bits.
pub open spec fn has_row_length(width: u32) -> bool {
    width * 4 <= u32::MAX
}

/// The writes that put regions at their places.
pub open spec fn writes_of(regions: Seq<FrameRegion>) -> Seq<TextureWrite> {
    regions.map_values(
        |region: FrameRegion| write_of(region.0, region.1, region.2, region.3),
    )
}

/// Whether a write fills the rectangle of the given size at the given place with packed pixels of
/// four bytes, from the first byte of the data on.
pub open spec fn is_write_to(write: TextureWrite, x: int, y: int, width: int, height: int) -> bool {
    &&& write.x == x
    &&& write.y == y
    &&& write.z == 0
    &&& write.width == width
    &&& write.height == height
    &&& write.depth_or_array_layers == 1
    &&& write.mip_level == 0
    &&& write.offset == 0
    &&& write.bytes_per_row == width * 4
    &&& write.rows_per_image == height
}

/// A region is written where it lies and as large as it is, to the texture itself, from the first
/// byte of its data on, four bytes for each pixel of a row.
pub proof fn a_region_is_written_to_its_place(x: u32, y: u32, width: u32, height: u32)
    requires
        has_row_length(width),
    ensures
        ({
            let write = write_of(x, y, width, height);
            &&& write.x == x && write.y == y && write.z == 0
            &&& write.width == width && write.height == height && write.depth_or_array_layers == 1
            &&& write.mip_level == 0 && write.offset == 0
            &&& write.bytes_per_row == 4 * width && write.rows_per_image == height
        }),
{
}

/// Moving a region moves its write by as much and changes nothing else about it.
pub proof fn moving_a_region_moves_its_write(
    x: u32,
    y: u32,
    other_x: u32,
    other_y: u32,
    width: u32,
    height: u32,
)
    ensures
        write_of(other_x, other_y, width, height) == (TextureWrite {
            x: other_x,
            y: other_y,
            ..write_of(x, y, width, height)
        }),
        write_of(other_x, y, width, height).x - write_of(x, y, width, height).x == other_x - x,
        write_of(x, other_y, width, height).y - write_of(x, y, width, height).y == other_y - y,
{
}

/// There is one write for each region, in their order, each to the place and of the size of its
/// region.
pub proof fn every_region_is_written_to_its_place(regions: Seq<FrameRegion>, i: int)
    requires
        0 <= i < regions.len(),
        has_row_length(regions[i].2),
    ensures
        writes_of(regions).len() == regions.len(),
        writes_of(regions)[i].x == regions[i].0 && writes_of(regions)[i].y == regions[i].1,
        writes_of(regions)[i].width == regions[i].2 && writes_of(regions)[i].height == regions[i].3,
        writes_of(regions)[i].bytes_per_row == 4 * regions[i].2,
        writes_of(regions)[i].rows_per_image == regions[i].3,
        writes_of(regions)[i].z == 0 && writes_of(regions)[i].depth_or_array_layers == 1,
        writes_of(regions)[i].mip_level == 0 && writes_of(regions)[i].offset == 0,
{
}

/// Rows of up to 0x3FFF_FFFF pixels can be counted, and no longer ones.
pub proof fn rows_have_a_length_up_to_a_limit(width: u32)
    ensures
        has_row_length(width) <==> width <= 0x3FFF_FFFF,
{
}

/// What comes of asking for the next image of the surface.
#[derive(Debug, Clone, Copy, PartialEq, Eq, Structural)]
pub enum SurfaceStatus {
    Success,
    Suboptimal,
    Timeout,
    Occluded,
    Outdated,
    Lost,
    Validation,
}

impl SurfaceStatus {
    /// Why there is no image to paint on, if there is none.
    pub open spec fn failure(self) -> Option<Seq<char>> {
        match self {
            SurfaceStatus::Success => None,
            SurfaceStatus::Suboptimal => None,
            SurfaceStatus::Timeout => Some("Surface timeout"@),
            SurfaceStatus::Occluded => Some("Surface occluded"@),
            SurfaceStatus::Outdated => Some("Surface outdated – reconfigure needed"@),
            SurfaceStatus::Lost => Some("Surface lost"@),
            SurfaceStatus::Validation => Some("Surface validation error"@),
        }
    }

    /// Whether there is an image to paint on, and otherwise why not.
    pub fn acquired(self) -> (result: Result<(), String>)
        ensures
            match self.failure() {
                None => result is Ok,
                Some(text) => result matches Err(told) && told@ == text,
            },
            result is Ok <==> self is Success || self is Suboptimal,
            self is Timeout ==> result->Err_0@ == "Surface timeout"@,
            self is Occluded ==> result->Err_0@ == "Surface occluded"@,
            self is Outdated ==> result->Err_0@ == "Surface outdated – reconfigure needed"@,
            self is Lost ==> result->Err_0@ == "Surface lost"@,
            self is Validation ==> result->Err_0@ == "Surface validation error"@,
    {
        match self {
            SurfaceStatus::Success | SurfaceStatus::Suboptimal => Ok(()),
            SurfaceStatus::Timeout => Err("Surface timeout".to_owned()),
            SurfaceStatus::Occluded => Err("Surface occluded".to_owned()),
            SurfaceStatus::Outdated => Err("Surface outdated – reconfigure needed".to_owned()),
            SurfaceStatus::Lost => Err("Surface lost".to_owned()),
            SurfaceStatus::Validation => Err("Surface validation error".to_owned()),
        }
    }
}

/// The index of the first format that is in the sRGB colour space, or of the first at all.
pub open spec fn is_best_format(srgb: Seq<bool>, index: int) -> bool {
    &&& 0 <= index < srgb.len()
    &&& srgb[index] ==> forall|i: int| 0 <= i < index ==> !#[trigger] srgb[i]
    &&& !srgb[index] ==> index == 0 && forall|i: int|
        0 <= i < srgb.len() ==> !#[trigger] srgb[i]
}

/// The index of the first format that is in the sRGB colour space, or of the first at all. For
/// each format that the surface offers, `srgb` tells whether it is in that space.
pub fn choose_format(srgb: &Vec<bool>) -> (index: usize)
    requires
        srgb@.len() > 0,
    ensures
        is_best_format(srgb@, index as int),
        index < srgb@.len(),
        forall|i: int| 0 <= i < index ==> !#[trigger] srgb@[i],
        srgb@[index as int] || index == 0,
        srgb@[index as int] || forall|i: int| 0 <= i < srgb@.len() ==> !#[trigger] srgb@[i],
{
    let mut i: usize = 0;
    while i < srgb.len()
        invariant
            i <= srgb.len(),
            forall|j: int| 0 <= j < i ==> !#[trigger] srgb@[j],
        decreases srgb.len() - i,
    {
        if srgb[i] {
            return i;
        }
        i = i + 1;
    }
    0
}

/// There is one best format, whichever formats the surface offers.
pub proof fn the_best_format_is_unique(srgb: Seq<bool>, a: int, b: int)
    requires
        is_best_format(srgb, a),
        is_best_format(srgb, b),
    ensures
        a == b,
{
    if srgb[a] && srgb[b] {
        if a < b {
            assert(!srgb[a]);
        } else if b < a {
            assert(!srgb[b]);
        }
    }
}

/// The present mode `Mailbox` if the surface offers it, and `Fifo` otherwise.
pub fn choose_present_mode(offered: &Vec<PresentMode>) -> (mode: PresentMode)
    ensures
        mode == if offered@.contains(PresentMode::Mailbox) {
            PresentMode::Mailbox
        } else {
            PresentMode::Fifo
        },
{
    let mut i: usize = 0;
    while i < offered.len()
        invariant
            i <= offered.len(),
            forall|j: int| 0 <= j < i ==> #[trigger] offered@[j] != PresentMode::Mailbox,
        decreases offered.len() - i,
    {
        if offered[i] == PresentMode::Mailbox {
            return PresentMode::Mailbox;
        }
        i = i + 1;
    }
    PresentMode::Fifo
}

/// The larger of a number and one.
fn at_least_one(n: u32) -> (m: u32)
    ensures
        m == if n == 0 { 1 } else { n },
{
    if n == 0 {
        1
    } else {
        n
    }
}

/// The texture that holds a desktop of the given size: one flat picture of RGBA pixels in the sRGB
/// colour space, which is written to and painted from and not looked at in any other format.
pub open spec fn desktop_texture_of(width: u32, height: u32) -> TextureDescriptionView {
    TextureDescriptionView {
        width,
        height,
        depth_or_array_layers: 1,
        mip_level_count: 1,
        sample_count: 1,
        dimension: TextureDimension::D2,
        format: TextureFormat::Rgba8UnormSrgb,
        usage: desktop_usages(),
        view_formats: Seq::empty(),
    }
}

/// The bytes of the desktop image are those of the desktop texture: each of a pixel's four bytes
/// holds the same part of it in both, so that they are copied as they are.
pub proof fn the_texture_takes_the_bytes_of_the_image(width: u32, height: u32)
    ensures
        desktop_texture_of(width, height).format.channels() == IMAGE_FORMAT.channels(),
        IMAGE_FORMAT.channels() == seq![
            Channel::Red,
            Channel::Green,
            Channel::Blue,
            Channel::Alpha,
        ],
        desktop_texture_of(width, height).width == width,
        desktop_texture_of(width, height).height == height,
{
}

/// How the desktop is painted.
#[derive(Debug)]
pub struct WgpuState {
    pub surface: SurfaceConfiguration,
    pub desktop_texture: TextureDescription,
}

impl WgpuState {
    /// The settings for a desktop of the given size on a surface that offers these formats (for
    /// each of which `srgb` tells whether it is in the sRGB colour space), present modes and
    /// number of alpha modes.
    pub fn new(
        srgb: &Vec<bool>,
        present_modes: &Vec<PresentMode>,
        alpha_modes: usize,
        desktop_w: u32,
        desktop_h: u32,
    ) -> (state: WgpuState)
        requires
            srgb@.len() > 0,
            alpha_modes > 0,
        ensures
            state.surface.usage == surface_usages(),
            is_best_format(srgb@, state.surface.format as int),
            state.surface.width == if desktop_w == 0 { 1 } else { desktop_w },
            state.surface.height == if desktop_h == 0 { 1 } else { desktop_h },
            state.surface.present_mode == if present_modes@.contains(PresentMode::Mailbox) {
                PresentMode::Mailbox
            } else {
                PresentMode::Fifo
            },
            state.surface.format < srgb@.len(),
            forall|i: int| 0 <= i < state.surface.format ==> !#[trigger] srgb@[i],
            srgb@[state.surface.format as int] || (state.surface.format == 0 && forall|i: int|
                0 <= i < srgb@.len() ==> !#[trigger] srgb@[i]),
            state.surface.usage.render_attachment && !state.surface.usage.copy_src
                && !state.surface.usage.copy_dst && !state.surface.usage.texture_binding
                && !state.surface.usage.storage_binding,
            state.desktop_texture.width == desktop_w && state.desktop_texture.height == desktop_h,
            state.desktop_texture.depth_or_array_layers == 1,
            state.desktop_texture.mip_level_count == 1 && state.desktop_texture.sample_count == 1,
            state.desktop_texture.dimension is D2,
            state.desktop_texture.format is Rgba8UnormSrgb,
            state.desktop_texture.usage.copy_dst && state.desktop_texture.usage.texture_binding
                && !state.desktop_texture.usage.copy_src
                && !state.desktop_texture.usage.storage_binding
                && !state.desktop_texture.usage.render_attachment,
            state.desktop_texture.view_formats@.len() == 0,
            state.surface.alpha_mode == 0,
            state.surface.desired_maximum_frame_latency == 2,
            state.surface.view_formats@.len() == 0,
            state.desktop_texture@ == desktop_texture_of(desktop_w, desktop_h),
    {
        let state = WgpuState {
            surface: SurfaceConfiguration {
                usage: TextureUsages {
                    copy_src: false,
                    copy_dst: false,
                    texture_binding: false,
                    storage_binding: false,
                    render_attachment: true,
                },
                format: choose_format(srgb),
                width: at_least_one(desktop_w),
                height: at_least_one(desktop_h),
                present_mode: choose_present_mode(present_modes),
                alpha_mode: 0,
                desired_maximum_frame_latency: 2,
                view_formats: Vec::new(),
            },
            desktop_texture: TextureDescription {
                width: desktop_w,
                height: desktop_h,
                depth_or_array_layers: 1,
                mip_level_count: 1,
                sample_count: 1,
                dimension: TextureDimension::D2,
                format: TextureFormat::Rgba8UnormSrgb,
                usage: TextureUsages {
                    copy_src: false,
                    copy_dst: true,
                    texture_binding: true,
                    storage_binding: false,
                    render_attachment: false,
                },
                view_formats: Vec::new(),
            },
        };
        assert(state.desktop_texture@.view_formats =~= Seq::empty());
        state
    }

    /// The write that puts a region into the desktop texture.
    pub fn write_region(&self, x: u32, y: u32, w: u32, h: u32) -> (write: TextureWrite)
        requires
            has_row_length(w),
        ensures
            write == write_of(x, y, w, h),
            write.x == x && write.y == y && write.z == 0,
            write.width == w && write.height == h && write.depth_or_array_layers == 1,
            write.mip_level == 0 && write.offset == 0,
            write.bytes_per_row == w * 4 && write.rows_per_image == h,
    {
        TextureWrite {
            mip_level: 0,
            x,
            y,
            z: 0,
            offset: 0,
            bytes_per_row: w * 4,
            rows_per_image: h,
            width: w,
            height: h,
            depth_or_array_layers: 1,
        }
    }

    /// The writes that put regions into the desktop texture, in their order.
    pub fn write_regions_batched(&self, regions: &Vec<FrameRegion>) -> (writes: Vec<TextureWrite>)
        requires
            forall|i: int| 0 <= i < regions@.len() ==> has_row_length(#[trigger] regions@[i].2),
        ensures
            writes@ == writes_of(regions@),
            writes@.len() == regions@.len(),
            forall|i: int|
                0 <= i < regions@.len() ==> is_write_to(
                    #[trigger] writes@[i],
                    regions@[i].0 as int,
                    regions@[i].1 as int,
                    regions@[i].2 as int,
                    regions@[i].3 as int,
                ),
    {
        let mut writes: Vec<TextureWrite> = Vec::new();
        let mut i: usize = 0;
        while i < regions.len()
            invariant
                i <= regions.len(),
                forall|j: int| 0 <= j < regions@.len() ==> has_row_length(#[trigger] regions@[j].2),
                writes@ == writes_of(regions@).take(i as int),
            decreases regions.len() - i,
        {
            let region = &regions[i];
            writes.push(self.write_region(region.0, region.1, region.2, region.3));
            assert(writes@ =~= writes_of(regions@).take(i + 1));
            i = i + 1;
        }
        assert(writes@ =~= writes_of(regions@));
        writes
    }

    /// The writes that come before a frame is painted: those of the regions, if there are any.
    pub fn render(&self, regions: Option<&Vec<FrameRegion>>) -> (writes: Vec<TextureWrite>)
        requires
            regions matches Some(list) ==> forall|i: int|
                0 <= i < list@.len() ==> has_row_length(#[trigger] list@[i].2),
        ensures
            writes@ == match regions {
                Some(list) => writes_of(list@),
                None => Seq::empty(),
            },
            regions is None ==> writes@.len() == 0,
            regions matches Some(list) ==> writes@.len() == list@.len(),
            regions matches Some(list) ==> forall|i: int|
                0 <= i < list@.len() ==> is_write_to(
                    #[trigger] writes@[i],
                    list@[i].0 as int,
                    list@[i].1 as int,
                    list@[i].2 as int,
                    list@[i].3 as int,
                ),
    {
        match regions {
            Some(list) => self.write_regions_batched(list),
            None => Vec::new(),
        }
    }
}

} // verus!

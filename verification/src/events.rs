//! The messages between the session and the window.
use crate::input::Operation;
use vstd::prelude::*;

verus! {

/// A region of the desktop with its pixels: left, top, width, height and the packed bytes.
pub type FrameRegion = (u32, u32, u32, u32, Vec<u8>);

/// The contents of a region.
pub type FrameRegionView = (u32, u32, u32, u32, Seq<u8>);

/// The contents of a region.
pub open spec fn region_view(region: FrameRegion) -> FrameRegionView {
    (region.0, region.1, region.2, region.3, region.4@)
}

/// The contents of a list of regions.
pub open spec fn regions_view(regions: Seq<FrameRegion>) -> Seq<FrameRegionView> {
    regions.map_values(|region: FrameRegion| region_view(region))
}

/// What the session tells the window.
#[derive(Debug)]
pub enum RdpOutputEvent {
    /// A whole image.
    Image { buffer: Vec<u32>, width: u32, height: u32 },
    /// One region has changed.
    RegionUpdate { x: u32, y: u32, width: u32, height: u32, data: Vec<u8> },
    /// All the regions that one message of the server has changed.
    FrameUpdate { regions: Vec<FrameRegion> },
    /// The connection could not be made.
    ConnectionFailure(String),
    /// The session is over.
    Terminated(Result<String, String>),
}

/// The contents of an [`RdpOutputEvent`].
pub enum RdpOutputEventView {
    Image { buffer: Seq<u32>, width: u32, height: u32 },
    RegionUpdate { x: u32, y: u32, width: u32, height: u32, data: Seq<u8> },
    FrameUpdate { regions: Seq<FrameRegionView> },
    ConnectionFailure(Seq<char>),
    Terminated(Result<Seq<char>, Seq<char>>),
}

impl View for RdpOutputEvent {
    type V = RdpOutputEventView;

    open spec fn view(&self) -> RdpOutputEventView {
        match *self {
            RdpOutputEvent::Image { buffer, width, height } => RdpOutputEventView::Image {
                buffer: buffer@,
                width,
                height,
            },
            RdpOutputEvent::RegionUpdate { x, y, width, height, data } =>
                RdpOutputEventView::RegionUpdate { x, y, width, height, data: data@ },
            RdpOutputEvent::FrameUpdate { regions } => RdpOutputEventView::FrameUpdate {
                regions: regions_view(regions@),
            },
            RdpOutputEvent::ConnectionFailure(detail) => RdpOutputEventView::ConnectionFailure(
                detail@,
            ),
            RdpOutputEvent::Terminated(Ok(reason)) => RdpOutputEventView::Terminated(Ok(reason@)),
            RdpOutputEvent::Terminated(Err(detail)) => RdpOutputEventView::Terminated(Err(detail@)),
        }
    }
}

/// What the window tells the session.
#[derive(Debug)]
pub enum RdpInputEvent {
    /// The window has a new size.
    Resize { width: u16, height: u16 },
    /// The user did something.
    Operations(Vec<Operation>),
    /// The window is closing.
    Close,
}

/// The contents of an [`RdpInputEvent`].
pub enum RdpInputEventView {
    Resize { width: u16, height: u16 },
    Operations(Seq<Operation>),
    Close,
}

impl View for RdpInputEvent {
    type V = RdpInputEventView;

    open spec fn view(&self) -> RdpInputEventView {
        match *self {
            RdpInputEvent::Resize { width, height } => RdpInputEventView::Resize { width, height },
            RdpInputEvent::Operations(operations) => RdpInputEventView::Operations(operations@),
            RdpInputEvent::Close => RdpInputEventView::Close,
        }
    }
}

/// The view of a region holds what the region holds, each part in its place.
pub proof fn region_views_are_faithful(regions: Seq<FrameRegion>, i: int)
    requires
        0 <= i < regions.len(),
    ensures
        regions_view(regions).len() == regions.len(),
        regions_view(regions)[i].0 == regions[i].0,
        regions_view(regions)[i].1 == regions[i].1,
        regions_view(regions)[i].2 == regions[i].2,
        regions_view(regions)[i].3 == regions[i].3,
        regions_view(regions)[i].4 == regions[i].4@,
{
}

/// The view of what the session tells the window holds what is told.
pub proof fn output_event_views_are_faithful(event: RdpOutputEvent)
    ensures
        event is Image ==> event@ is Image && event@->buffer == event->buffer@
            && event@->Image_width == event->Image_width && event@->Image_height
            == event->Image_height,
        event is RegionUpdate ==> event@ is RegionUpdate && event@->x == event->x && event@->y
            == event->y && event@->RegionUpdate_width == event->RegionUpdate_width
            && event@->RegionUpdate_height == event->RegionUpdate_height && event@->data
            == event->data@,
        event is FrameUpdate ==> event@ is FrameUpdate && event@->regions == regions_view(
            event->regions@,
        ),
        event matches RdpOutputEvent::ConnectionFailure(detail) ==> event@
            == RdpOutputEventView::ConnectionFailure(detail@),
        event matches RdpOutputEvent::Terminated(Ok(reason)) ==> event@
            == RdpOutputEventView::Terminated(Ok(reason@)),
        event matches RdpOutputEvent::Terminated(Err(detail)) ==> event@
            == RdpOutputEventView::Terminated(Err(detail@)),
{
}

/// The view of what the window tells the session holds what is told.
pub proof fn input_event_views_are_faithful(event: RdpInputEvent)
    ensures
        event is Resize ==> event@ is Resize && event@->width == event->width && event@->height
            == event->height,
        event is Operations ==> event@ is Operations && event@->Operations_0
            == event->Operations_0@,
        event is Close <==> event@ is Close,
{
}

} // verus!

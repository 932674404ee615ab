use vstd::prelude::*;

verus! {

/// A width and height in pixels.
#[derive(Clone, Copy, Debug, PartialEq, Eq, Structural)]
pub struct Extent {
    pub width: u32,
    pub height: u32,
}

/// What a device reports it can do with a window's surface.
pub struct SurfaceCaps {
    pub min_image_count: u32,
    /// `None` where the device sets no upper bound.
    pub max_image_count: Option<u32>,
    /// `Some` where the surface's size is fixed by the window system.
    pub current_extent: Option<Extent>,
    pub min_extent: Extent,
    pub max_extent: Extent,
    /// Supported pixel formats, as format codes, in the order the device gives them.
    pub formats: Vec<u32>,
}

/// Why no presentable surface could be set up.
#[derive(Clone, Copy, Debug, PartialEq, Eq, Structural)]
pub enum SurfaceError {
    /// The device reports no format for the surface.
    NoFormat,
    /// The reported bounds admit no image count or no extent.
    InvalidCapabilities,
}

/// The negotiated set-up of a chain of presentable images.
#[derive(Clone, Copy, Debug, PartialEq, Eq, Structural)]
pub struct SurfaceConfig {
    /// Position of the chosen format in `SurfaceCaps::formats`.
    pub format_index: usize,
    pub format: u32,
    pub image_count: u32,
    pub extent: Extent,
}

pub open spec fn clamp(v: u32, lo: u32, hi: u32) -> u32 {
    if v < lo {
        lo
    } else if v > hi {
        hi
    } else {
        v
    }
}

pub open spec fn caps_valid(caps: SurfaceCaps) -> bool {
    &&& caps.min_image_count > 0
    &&& caps.max_image_count matches Some(m) ==> caps.min_image_count <= m
    &&& caps.min_extent.width <= caps.max_extent.width
    &&& caps.min_extent.height <= caps.max_extent.height
    &&& caps.current_extent matches Some(e) ==> extent_within(e, caps.min_extent, caps.max_extent)
}

pub open spec fn extent_within(e: Extent, lo: Extent, hi: Extent) -> bool {
    lo.width <= e.width <= hi.width && lo.height <= e.height <= hi.height
}

/// Where the preferred format is offered, its first position; else the first format.
pub open spec fn chosen_format_index(formats: Seq<u32>, preferred: u32) -> int {
    if exists|i: int| 0 <= i < formats.len() && formats[i] == preferred {
        choose|i: int|
            0 <= i < formats.len() && formats[i] == preferred && forall|j: int|
                0 <= j < i ==> formats[j] != preferred
    } else {
        0
    }
}

/// The extent the surface takes for a window of the given size.
pub open spec fn chosen_extent(caps: SurfaceCaps, window: Extent) -> Extent {
    match caps.current_extent {
        Some(e) => e,
        None => Extent {
            width: clamp(window.width, caps.min_extent.width, caps.max_extent.width),
            height: clamp(window.height, caps.min_extent.height, caps.max_extent.height),
        },
    }
}

/// The configuration negotiated from valid capabilities with at least one format.
pub open spec fn negotiated(caps: SurfaceCaps, preferred: u32, window: Extent) -> SurfaceConfig {
    let i = chosen_format_index(caps.formats@, preferred);
    SurfaceConfig {
        format_index: i as usize,
        format: caps.formats@[i],
        image_count: caps.min_image_count,
        extent: chosen_extent(caps, window),
    }
}

pub open spec fn config_fits(cfg: SurfaceConfig, caps: SurfaceCaps) -> bool {
    &&& cfg.format_index < caps.formats@.len()
    &&& caps.formats@[cfg.format_index as int] == cfg.format
    &&& caps.min_image_count <= cfg.image_count
    &&& caps.max_image_count matches Some(m) ==> cfg.image_count <= m
    &&& extent_within(cfg.extent, caps.min_extent, caps.max_extent)
}

proof fn lemma_first_index(formats: Seq<u32>, preferred: u32, k: int)
    requires
        0 <= k < formats.len(),
        formats[k] == preferred,
        forall|j: int| 0 <= j < k ==> formats[j] != preferred,
    ensures
        chosen_format_index(formats, preferred) == k,
{
    let c = chosen_format_index(formats, preferred);
    assert(formats[c] == preferred);
    if c < k {
        assert(formats[c] != preferred);
    } else if c > k {
        assert(formats[k] != preferred);
    }
}

fn clamp_exec(v: u32, lo: u32, hi: u32) -> (r: u32)
    ensures
        r == clamp(v, lo, hi),
{
    if v < lo {
        lo
    } else if v > hi {
        hi
    } else {
        v
    }
}

/// First position of `wanted` in `formats`, if any.
fn find_format(formats: &Vec<u32>, wanted: u32) -> (r: Option<usize>)
    ensures
        r is None ==> forall|j: int| 0 <= j < formats@.len() ==> formats@[j] != wanted,
        r matches Some(k) ==> k < formats@.len() && formats@[k as int] == wanted && forall|j: int|
            0 <= j < k ==> formats@[j] != wanted,
{
    let mut i: usize = 0;
    while i < formats.len()
        invariant
            i <= formats@.len(),
            forall|j: int| 0 <= j < i ==> formats@[j] != wanted,
        decreases formats@.len() - i,
    {
        if formats[i] == wanted {
            return Some(i);
        }
        i += 1;
    }
    None
}

impl SurfaceConfig {
    /// Negotiates a surface set-up from the device's capabilities: the preferred
    /// format where offered, else the first one; the least image count the device
    /// allows; the fixed surface size where there is one, else the window's size
    /// held within the reported bounds.
    pub fn negotiate(caps: &SurfaceCaps, preferred_format: u32, window: Extent) -> (r: Result<
        SurfaceConfig,
        SurfaceError,
    >)
        ensures
            r == Err::<SurfaceConfig, SurfaceError>(SurfaceError::InvalidCapabilities) <==> !caps_valid(
                *caps,
            ),
            r == Err::<SurfaceConfig, SurfaceError>(SurfaceError::NoFormat) <==> caps_valid(*caps)
                && caps.formats@.len() == 0,
            r matches Ok(cfg) ==> cfg == negotiated(*caps, preferred_format, window) && config_fits(
                cfg,
                *caps,
            ),
    {
        let bad_count = match caps.max_image_count {
            Some(m) => m < caps.min_image_count,
            None => false,
        };
        let bad_extent = match caps.current_extent {
            Some(e) => e.width < caps.min_extent.width || e.width > caps.max_extent.width
                || e.height < caps.min_extent.height || e.height > caps.max_extent.height,
            None => false,
        };
        if caps.min_image_count == 0 || bad_count || caps.min_extent.width > caps.max_extent.width
            || caps.min_extent.height > caps.max_extent.height || bad_extent {
            return Err(SurfaceError::InvalidCapabilities);
        }
        if caps.formats.len() == 0 {
            return Err(SurfaceError::NoFormat);
        }
        let idx: usize = match find_format(&caps.formats, preferred_format) {
            Some(k) => {
                proof {
                    lemma_first_index(caps.formats@, preferred_format, k as int);
                }
                k
            },
            None => 0,
        };
        let extent = match caps.current_extent {
            Some(e) => e,
            None => Extent {
                width: clamp_exec(window.width, caps.min_extent.width, caps.max_extent.width),
                height: clamp_exec(window.height, caps.min_extent.height, caps.max_extent.height),
            },
        };
        Ok(
            SurfaceConfig {
                format_index: idx,
                format: caps.formats[idx],
                image_count: caps.min_image_count,
                extent,
            },
        )
    }
}

} // verus!

//! The decoded form of a metadata blob: a schema version and, for the
//! versions whose layout is known, the modules in source order.

use vstd::prelude::*;
use vstd::slice::*;

verus! {

/// The four bytes that every metadata blob starts with (`meta` in ASCII).
pub const MAGIC: [u8; 4] = [0x6d, 0x65, 0x74, 0x61];

/// The magic prefix as a sequence.
pub open spec fn magic_seq() -> Seq<u8> {
    seq![0x6du8, 0x65u8, 0x74u8, 0x61u8]
}

/// A schema layout that the decoder can take apart.
#[derive(Clone, Copy, Debug, PartialEq, Eq, Structural)]
pub enum Layout {
    V12,
    V13,
    V14,
}

impl Layout {
    /// The layout that a version discriminant selects, if it selects one.
    pub open spec fn of_tag(tag: u8) -> Option<Layout> {
        if tag == 12 {
            Some(Layout::V12)
        } else if tag == 13 {
            Some(Layout::V13)
        } else if tag == 14 {
            Some(Layout::V14)
        } else {
            None
        }
    }

    /// The version discriminant of a layout.
    pub open spec fn tag_spec(self) -> u8 {
        match self {
            Layout::V12 => 12,
            Layout::V13 => 13,
            Layout::V14 => 14,
        }
    }

    /// Reads a version discriminant: 12, 13 and 14 select a layout.
    pub fn from_tag(tag: u8) -> (layout: Option<Layout>)
        ensures
            layout == Layout::of_tag(tag),
    {
        if tag == 12 {
            Some(Layout::V12)
        } else if tag == 13 {
            Some(Layout::V13)
        } else if tag == 14 {
            Some(Layout::V14)
        } else {
            None
        }
    }

    /// The version discriminant that selects this layout.
    #[verifier::when_used_as_spec(tag_spec)]
    pub fn tag(self) -> (tag: u8)
        ensures
            tag == self.tag_spec(),
            Layout::of_tag(tag) == Some(self),
    {
        match self {
            Layout::V12 => 12,
            Layout::V13 => 13,
            Layout::V14 => 14,
        }
    }
}

/// One module of a runtime: its name, and its body in the encoding of its layout.
#[derive(Debug, PartialEq, Eq)]
pub struct ModuleDescriptor {
    pub layout: Layout,
    pub name: String,
    pub encoded: Vec<u8>,
}

/// The mathematical value of a [`ModuleDescriptor`].
pub struct ModuleView {
    pub layout: Layout,
    pub name: Seq<char>,
    pub encoded: Seq<u8>,
}

impl View for ModuleDescriptor {
    type V = ModuleView;

    open spec fn view(&self) -> ModuleView {
        ModuleView { layout: self.layout, name: self.name@, encoded: self.encoded@ }
    }
}

impl Clone for ModuleDescriptor {
    fn clone(&self) -> (copy: ModuleDescriptor)
        ensures
            copy@ == self@,
    {
        ModuleDescriptor {
            layout: self.layout,
            name: self.name.clone(),
            encoded: slice_to_vec(self.encoded.as_slice()),
        }
    }
}

/// The values of a list of descriptors, in the same order.
pub open spec fn module_views(modules: Seq<ModuleDescriptor>) -> Seq<ModuleView> {
    Seq::new(modules.len(), |i: int| modules[i]@)
}

/// The schema version of a blob, with the module list where the layout is known.
#[derive(Debug, PartialEq, Eq)]
pub enum MetadataVersion {
    V12(Vec<ModuleDescriptor>),
    V13(Vec<ModuleDescriptor>),
    V14(Vec<ModuleDescriptor>),
    /// A discriminant without a known layout; nothing of the body is interpreted.
    Unsupported(u8),
}

/// The mathematical value of a [`MetadataVersion`].
pub enum VersionView {
    V12(Seq<ModuleView>),
    V13(Seq<ModuleView>),
    V14(Seq<ModuleView>),
    Unsupported(u8),
}

impl VersionView {
    /// The version of a known layout with the given modules.
    pub open spec fn known(layout: Layout, modules: Seq<ModuleView>) -> VersionView {
        match layout {
            Layout::V12 => VersionView::V12(modules),
            Layout::V13 => VersionView::V13(modules),
            Layout::V14 => VersionView::V14(modules),
        }
    }

    pub open spec fn layout(self) -> Option<Layout> {
        match self {
            VersionView::V12(_) => Some(Layout::V12),
            VersionView::V13(_) => Some(Layout::V13),
            VersionView::V14(_) => Some(Layout::V14),
            VersionView::Unsupported(_) => None,
        }
    }

    /// The modules in source order; none for an unsupported version.
    pub open spec fn modules(self) -> Seq<ModuleView> {
        match self {
            VersionView::V12(modules) => modules,
            VersionView::V13(modules) => modules,
            VersionView::V14(modules) => modules,
            VersionView::Unsupported(_) => Seq::empty(),
        }
    }

    /// The version discriminant.
    pub open spec fn tag(self) -> u8 {
        match self {
            VersionView::V12(_) => 12,
            VersionView::V13(_) => 13,
            VersionView::V14(_) => 14,
            VersionView::Unsupported(tag) => tag,
        }
    }

    /// Every module carries the layout of the version it stands under, and an
    /// unsupported discriminant is none of the known ones.
    pub open spec fn wf(self) -> bool {
        match self {
            VersionView::Unsupported(tag) => Layout::of_tag(tag) is None,
            _ => forall|i: int|
                0 <= i < self.modules().len() ==> Some(
                    (#[trigger] self.modules()[i]).layout,
                ) == self.layout(),
        }
    }
}

impl View for MetadataVersion {
    type V = VersionView;

    open spec fn view(&self) -> VersionView {
        match self {
            MetadataVersion::V12(modules) => VersionView::V12(module_views(modules@)),
            MetadataVersion::V13(modules) => VersionView::V13(module_views(modules@)),
            MetadataVersion::V14(modules) => VersionView::V14(module_views(modules@)),
            MetadataVersion::Unsupported(tag) => VersionView::Unsupported(*tag),
        }
    }
}

/// The mathematical value of a [`VersionedMetadata`].
pub struct MetadataView {
    pub version: VersionView,
    /// The bytes of the blob that follow the version discriminant.
    pub payload: Seq<u8>,
}

impl MetadataView {
    /// The blob that this value was decoded from: magic, discriminant, payload.
    pub open spec fn source(self) -> Seq<u8> {
        magic_seq() + seq![self.version.tag()] + self.payload
    }
}

/// A decoded metadata blob.  The magic prefix is not stored: a value exists
/// only for a blob that carried it.
#[derive(Debug, PartialEq, Eq)]
pub struct VersionedMetadata {
    version: MetadataVersion,
    payload: Vec<u8>,
}

impl View for VersionedMetadata {
    type V = MetadataView;

    closed spec fn view(&self) -> MetadataView {
        MetadataView { version: self.version@, payload: self.payload@ }
    }
}

impl VersionedMetadata {
    #[verifier::type_invariant]
    spec fn inv(self) -> bool {
        self.version@.wf()
    }

    /// Puts a value together from its parts.
    pub(crate) fn new(version: MetadataVersion, payload: Vec<u8>) -> (metadata: VersionedMetadata)
        requires
            version@.wf(),
        ensures
            metadata@ == (MetadataView { version: version@, payload: payload@ }),
    {
        VersionedMetadata { version, payload }
    }

    /// The magic prefix of the blob.
    pub fn magic(&self) -> (magic: [u8; 4])
        ensures
            magic@ == magic_seq(),
    {
        MAGIC
    }

    /// The schema version with its modules.
    pub fn version(&self) -> (version: &MetadataVersion)
        ensures
            version@ == self@.version,
            version@.wf(),
    {
        proof {
            use_type_invariant(self);
        }
        &self.version
    }

    /// The bytes that follow the version discriminant.
    pub fn payload(&self) -> (payload: &[u8])
        ensures
            payload@ == self@.payload,
    {
        self.payload.as_slice()
    }

    /// The version discriminant that the blob carried.
    pub fn tag(&self) -> (tag: u8)
        ensures
            tag == self@.version.tag(),
    {
        match &self.version {
            MetadataVersion::V12(_) => 12,
            MetadataVersion::V13(_) => 13,
            MetadataVersion::V14(_) => 14,
            MetadataVersion::Unsupported(tag) => *tag,
        }
    }

    /// The blob that this value was decoded from, byte for byte.
    pub fn to_bytes(&self) -> (bytes: Vec<u8>)
        ensures
            bytes@ == self@.source(),
    {
        let mut bytes: Vec<u8> = Vec::new();
        bytes.extend_from_slice(MAGIC.as_slice());
        bytes.push(self.tag());
        bytes.extend_from_slice(self.payload.as_slice());
        assert(bytes@ =~= self@.source());
        bytes
    }
}

} // verus!

use vstd::prelude::*;

verus! {

/// The mathematical content of a [`Drive`]: every field as a plain value.
pub ghost struct DriveView {
    pub drive_id: Seq<char>,
    pub is_read_only: bool,
    pub is_root_device: bool,
    pub part_uuid: Option<Seq<char>>,
    pub path_on_host: Seq<char>,
}

/// Drive configuration.
///
/// Immutable once built; a new value must be assembled through
/// [`Drive::builder`] to change any field.
#[derive(Debug)]
pub struct Drive {
    drive_id: String,
    is_read_only: bool,
    is_root_device: bool,
    part_uuid: Option<String>,
    path_on_host: String,
}

impl View for Drive {
    type V = DriveView;

    closed spec fn view(&self) -> DriveView {
        DriveView {
            drive_id: self.drive_id@,
            is_read_only: self.is_read_only,
            is_root_device: self.is_root_device,
            part_uuid: match self.part_uuid {
                Some(u) => Some(u@),
                None => None,
            },
            path_on_host: self.path_on_host@,
        }
    }
}

impl Clone for Drive {
    fn clone(&self) -> (r: Self)
        ensures
            r@ == self@,
    {
        Drive {
            drive_id: self.drive_id.clone(),
            is_read_only: self.is_read_only,
            is_root_device: self.is_root_device,
            part_uuid: match &self.part_uuid {
                Some(u) => Some(u.clone()),
                None => None,
            },
            path_on_host: self.path_on_host.clone(),
        }
    }
}

impl Drive {
    /// Create a new `DriveBuilder` instance.
    ///
    /// The drive starts out neither read-only nor a root device, with no
    /// partition UUID.
    pub fn builder(drive_id: String, path_on_host: String) -> (b: DriveBuilder)
        ensures
            b@ == (DriveView {
                drive_id: drive_id@,
                is_read_only: false,
                is_root_device: false,
                part_uuid: None,
                path_on_host: path_on_host@,
            }),
    {
        DriveBuilder(Drive {
            drive_id,
            is_read_only: false,
            is_root_device: false,
            part_uuid: None,
            path_on_host,
        })
    }

    /// The drive ID.
    pub fn drive_id(&self) -> (r: &str)
        ensures
            r@ == self@.drive_id,
    {
        self.drive_id.as_str()
    }

    /// If the drive is read-only.
    pub fn is_read_only(&self) -> (r: bool)
        ensures
            r == self@.is_read_only,
    {
        self.is_read_only
    }

    /// If the drive is the root device.
    pub fn is_root_device(&self) -> (r: bool)
        ensures
            r == self@.is_root_device,
    {
        self.is_root_device
    }

    /// The unique id of the boot partition of this device.
    pub fn part_uuid(&self) -> (r: Option<&str>)
        ensures
            match r {
                Some(u) => self@.part_uuid == Some(u@),
                None => self@.part_uuid is None,
            },
    {
        match &self.part_uuid {
            Some(u) => Some(u.as_str()),
            None => None,
        }
    }

    /// Host level path for the guest drive.
    pub fn path_on_host(&self) -> (r: &str)
        ensures
            r@ == self@.path_on_host,
    {
        self.path_on_host.as_str()
    }
}

/// Builder for `Drive`.
#[derive(Debug)]
pub struct DriveBuilder(Drive);

impl View for DriveBuilder {
    type V = DriveView;

    closed spec fn view(&self) -> DriveView {
        self.0@
    }
}

impl Clone for DriveBuilder {
    fn clone(&self) -> (r: Self)
        ensures
            r@ == self@,
    {
        DriveBuilder(self.0.clone())
    }
}

impl DriveBuilder {
    /// If to-be-created `Drive` will be read-only.
    pub fn is_read_only(self, is_read_only: bool) -> (r: Self)
        ensures
            r@ == (DriveView { is_read_only, ..self@ }),
    {
        let mut inner = self.0;
        inner.is_read_only = is_read_only;
        DriveBuilder(inner)
    }

    /// If to-be-created `Drive` will be the root device.
    pub fn is_root_device(self, is_root_device: bool) -> (r: Self)
        ensures
            r@ == (DriveView { is_root_device, ..self@ }),
    {
        let mut inner = self.0;
        inner.is_root_device = is_root_device;
        DriveBuilder(inner)
    }

    /// Set the unique id of the boot partition of this device.
    ///
    /// It is optional and it will be taken into account only if its root
    /// device.
    pub fn part_uuid(self, part_uuid: Option<String>) -> (r: Self)
        ensures
            r@ == (DriveView {
                part_uuid: match part_uuid {
                    Some(u) => Some(u@),
                    None => None,
                },
                ..self@
            }),
    {
        let mut inner = self.0;
        inner.part_uuid = part_uuid;
        DriveBuilder(inner)
    }

    /// Build the `Drive`.
    ///
    /// Freezing is infallible and performs no validation: the built value
    /// holds exactly the builder's current fields.
    pub fn build(self) -> (d: Drive)
        ensures
            d@ == self@,
    {
        self.0
    }
}

/// Building a drive twice from one builder state is deterministic: any two
/// drives frozen from builders with equal contents have field-for-field
/// equal contents.
pub proof fn lemma_drive_build_deterministic(b1: DriveBuilder, b2: DriveBuilder, d1: Drive, d2: Drive)
    requires
        b1@ == b2@,
        d1@ == b1@,
        d2@ == b2@,
    ensures
        d1@ == d2@,
{
}

} // verus!

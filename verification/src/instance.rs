use vstd::prelude::*;
use crate::device::{make_version, version_number, version_parts, tri};
use crate::error::{Error, SUCCESS, ERROR_INITIALIZATION_FAILED};

verus! {

/// The instance flag that lets portability devices be enumerated.
pub const INSTANCE_CREATE_ENUMERATE_PORTABILITY: u32 = 1;

/// What a Vulkan instance is to be created with: the API version, the application's and
/// engine's names and versions, the creation flags, and the extensions and layers to enable.
pub struct Builder {
    api_version: u32,
    application: Option<String>,
    application_version: u32,
    engine: Option<String>,
    engine_version: u32,
    flags: u32,
    extensions: Vec<String>,
    layers: Vec<String>,
}

impl Builder {
    /// The packed API version.
    pub closed spec fn api_version_spec(&self) -> u32 {
        self.api_version
    }

    /// The application's name, when given.
    pub closed spec fn application_spec(&self) -> Option<Seq<char>> {
        match self.application {
            Some(n) => Some(n@),
            None => None,
        }
    }

    /// The application's packed version.
    pub closed spec fn application_version_spec(&self) -> u32 {
        self.application_version
    }

    /// The engine's name, when given.
    pub closed spec fn engine_spec(&self) -> Option<Seq<char>> {
        match self.engine {
            Some(n) => Some(n@),
            None => None,
        }
    }

    /// The engine's packed version.
    pub closed spec fn engine_version_spec(&self) -> u32 {
        self.engine_version
    }

    /// The creation flags.
    pub closed spec fn flags_spec(&self) -> u32 {
        self.flags
    }

    /// The extensions to enable.
    pub closed spec fn extensions_spec(&self) -> Seq<Seq<char>> {
        self.extensions@.map_values(|s: String| s@)
    }

    /// The layers to enable.
    pub closed spec fn layers_spec(&self) -> Seq<Seq<char>> {
        self.layers@.map_values(|s: String| s@)
    }

    /// A builder for API version `major.minor.patch`: no application or engine (version 0),
    /// portability enumeration on, no extensions and no layers.
    pub fn new(api_major: u32, api_minor: u32, api_patch: u32) -> (b: Self)
        ensures
            b.api_version_spec() == version_number(api_major, api_minor, api_patch),
            b.application_spec() is None,
            b.application_version_spec() == 0,
            b.engine_spec() is None,
            b.engine_version_spec() == 0,
            b.flags_spec() == INSTANCE_CREATE_ENUMERATE_PORTABILITY,
            b.extensions_spec().len() == 0,
            b.layers_spec().len() == 0,
    {
        let b = Builder {
            api_version: make_version(api_major, api_minor, api_patch),
            application: None,
            application_version: 0,
            engine: None,
            engine_version: 0,
            flags: INSTANCE_CREATE_ENUMERATE_PORTABILITY,
            extensions: Vec::new(),
            layers: Vec::new(),
        };
        proof {
            assert(b.extensions_spec().len() == 0);
            assert(b.layers_spec().len() == 0);
        }
        b
    }

    /// Names the application and gives its version.
    pub fn application(self, name: String, major: u32, minor: u32, patch: u32) -> (b: Self)
        ensures
            b.application_spec() == Some(name@),
            b.application_version_spec() == version_number(major, minor, patch),
            b.api_version_spec() == self.api_version_spec(),
            b.engine_spec() == self.engine_spec(),
            b.engine_version_spec() == self.engine_version_spec(),
            b.flags_spec() == self.flags_spec(),
            b.extensions_spec() == self.extensions_spec(),
            b.layers_spec() == self.layers_spec(),
    {
        let version = make_version(major, minor, patch);
        Builder { application: Some(name), application_version: version, ..self }
    }

    /// Names the engine and gives its version.
    pub fn engine(self, name: String, major: u32, minor: u32, patch: u32) -> (b: Self)
        ensures
            b.engine_spec() == Some(name@),
            b.engine_version_spec() == version_number(major, minor, patch),
            b.api_version_spec() == self.api_version_spec(),
            b.application_spec() == self.application_spec(),
            b.application_version_spec() == self.application_version_spec(),
            b.flags_spec() == self.flags_spec(),
            b.extensions_spec() == self.extensions_spec(),
            b.layers_spec() == self.layers_spec(),
    {
        let version = make_version(major, minor, patch);
        Builder { engine: Some(name), engine_version: version, ..self }
    }

    /// Sets the creation flags.
    pub fn flags(self, flags: u32) -> (b: Self)
        ensures
            b.flags_spec() == flags,
            b.api_version_spec() == self.api_version_spec(),
            b.application_spec() == self.application_spec(),
            b.application_version_spec() == self.application_version_spec(),
            b.engine_spec() == self.engine_spec(),
            b.engine_version_spec() == self.engine_version_spec(),
            b.extensions_spec() == self.extensions_spec(),
            b.layers_spec() == self.layers_spec(),
    {
        Builder { flags, ..self }
    }

    /// Sets the extensions to enable; their number must fit the driver's 32-bit count.
    pub fn extensions(self, ext: Vec<String>) -> (b: Self)
        requires
            ext@.len() <= u32::MAX,
        ensures
            b.extensions_spec() == ext@.map_values(|s: String| s@),
            b.flags_spec() == self.flags_spec(),
            b.api_version_spec() == self.api_version_spec(),
            b.application_spec() == self.application_spec(),
            b.application_version_spec() == self.application_version_spec(),
            b.engine_spec() == self.engine_spec(),
            b.engine_version_spec() == self.engine_version_spec(),
            b.layers_spec() == self.layers_spec(),
    {
        Builder { extensions: ext, ..self }
    }

    /// Sets the layers to enable; their number must fit the driver's 32-bit count.
    pub fn layers(self, layers: Vec<String>) -> (b: Self)
        requires
            layers@.len() <= u32::MAX,
        ensures
            b.layers_spec() == layers@.map_values(|s: String| s@),
            b.flags_spec() == self.flags_spec(),
            b.api_version_spec() == self.api_version_spec(),
            b.application_spec() == self.application_spec(),
            b.application_version_spec() == self.application_version_spec(),
            b.engine_spec() == self.engine_spec(),
            b.engine_version_spec() == self.engine_version_spec(),
            b.extensions_spec() == self.extensions_spec(),
    {
        Builder { layers, ..self }
    }

    /// The packed API version.
    pub fn api_version(&self) -> (r: u32)
        ensures
            r == self.api_version_spec(),
    {
        self.api_version
    }

    /// The application's name, when given.
    pub fn application_name(&self) -> (r: Option<&String>)
        ensures
            match r {
                Some(n) => self.application_spec() == Some(n@),
                None => self.application_spec() is None,
            },
    {
        match &self.application {
            Some(n) => Some(n),
            None => None,
        }
    }

    /// The engine's name, when given.
    pub fn engine_name(&self) -> (r: Option<&String>)
        ensures
            match r {
                Some(n) => self.engine_spec() == Some(n@),
                None => self.engine_spec() is None,
            },
    {
        match &self.engine {
            Some(n) => Some(n),
            None => None,
        }
    }

    /// The application's packed version.
    pub fn application_version(&self) -> (r: u32)
        ensures
            r == self.application_version_spec(),
    {
        self.application_version
    }

    /// The engine's packed version.
    pub fn engine_version(&self) -> (r: u32)
        ensures
            r == self.engine_version_spec(),
    {
        self.engine_version
    }

    /// The creation flags.
    pub fn flags_bits(&self) -> (r: u32)
        ensures
            r == self.flags_spec(),
    {
        self.flags
    }

    /// The extensions to enable.
    pub fn extension_names(&self) -> (r: &Vec<String>)
        ensures
            r@.map_values(|s: String| s@) == self.extensions_spec(),
    {
        &self.extensions
    }

    /// The layers to enable.
    pub fn layer_names(&self) -> (r: &Vec<String>)
        ensures
            r@.map_values(|s: String| s@) == self.layers_spec(),
    {
        &self.layers
    }

    /// The instance that creating one answered: the result code and the handle written; a
    /// null handle is an initialization failure.
    pub fn created(code: i32, handle: u64) -> (r: Result<u64, Error>)
        ensures
            code != SUCCESS ==> r == Err::<u64, Error>(Error::Vulkan(code)),
            code == SUCCESS && handle == 0 ==> r == Err::<u64, Error>(Error::Vulkan(ERROR_INITIALIZATION_FAILED)),
            code == SUCCESS && handle != 0 ==> r == Ok::<u64, Error>(handle),
    {
        tri(code)?;
        if handle != 0 {
            Ok(handle)
        } else {
            Err(Error::Vulkan(ERROR_INITIALIZATION_FAILED))
        }
    }
}

/// An instance extension the driver offers: its name and its packed specification version.
pub struct ExtensionProperty {
    pub name: String,
    pub spec_version: u32,
}

impl PartialEq for ExtensionProperty {
    fn eq(&self, other: &Self) -> (r: bool) {
        self.name == other.name && self.spec_version == other.spec_version
    }
}

impl vstd::std_specs::cmp::PartialEqSpecImpl for ExtensionProperty {
    open spec fn obeys_eq_spec() -> bool {
        true
    }

    open spec fn eq_spec(&self, other: &Self) -> bool {
        self.name@ == other.name@ && self.spec_version == other.spec_version
    }
}

impl ExtensionProperty {
    /// The extension's name.
    pub fn name(&self) -> (r: &String)
        ensures
            r == &self.name,
    {
        &self.name
    }

    /// The major, minor and patch numbers of the extension's specification version.
    pub fn version(&self) -> (r: (u32, u32, u32))
        ensures
            r == version_parts(self.spec_version),
    {
        crate::device::version_of(self.spec_version)
    }
}

/// The extensions that enumerating them answered: the result codes of the call that
/// counts them and of the call that lists them, and what it listed.
pub fn extension_props(count_code: i32, list_code: i32, props: Vec<ExtensionProperty>) -> (r: Result<Vec<ExtensionProperty>, Error>)
    ensures
        count_code != SUCCESS ==> r is Err && r->Err_0 == Error::Vulkan(count_code),
        count_code == SUCCESS && list_code != SUCCESS ==> r is Err && r->Err_0 == Error::Vulkan(list_code),
        count_code == SUCCESS && list_code == SUCCESS ==> r is Ok && r->Ok_0@ == props@,
{
    tri(count_code)?;
    tri(list_code)?;
    Ok(props)
}

} // verus!

//! Loading a platform's audio library at run time.
//!
//! Each library ships with its platform, so nothing has to be there when this
//! crate is built: a library is opened by the first of its paths that works,
//! and each function that capture uses is looked up by name.

use vstd::prelude::*;

use crate::text::c_text;

verus! {

broadcast use vstd::string::group_string_axioms;

/// A library that capture uses.
#[derive(Clone, Copy, Debug, PartialEq, Eq)]
pub enum NativeLibrary {
    /// `libaaudio`, on Android.
    Aaudio,
    /// `libasound`, on Linux.
    Alsa,
    /// AudioToolbox, on macOS and iOS. Setting queue properties, which selects a
    /// device, is used on macOS only.
    AudioToolbox { macos: bool },
    /// The hardware layer, on macOS.
    CoreAudio,
    /// String objects, on macOS.
    CoreFoundation,
    /// `winmm`, on Windows.
    Winmm,
    /// The Objective-C runtime, on iOS.
    ObjcRuntime,
    /// AVFAudio, on iOS: to load it registers its classes.
    AvfAudio,
}

impl NativeLibrary {
    /// The paths to try, in order.
    pub open spec fn paths(self) -> Seq<Seq<char>> {
        match self {
            NativeLibrary::Aaudio => seq!["libaaudio.so"@],
            NativeLibrary::Alsa => seq!["libasound.so.2"@],
            NativeLibrary::AudioToolbox { .. } => seq![
                "/System/Library/Frameworks/AudioToolbox.framework/AudioToolbox"@,
                "AudioToolbox.framework/AudioToolbox"@,
                "AudioToolbox"@,
            ],
            NativeLibrary::CoreAudio => seq![
                "/System/Library/Frameworks/CoreAudio.framework/CoreAudio"@,
                "CoreAudio.framework/CoreAudio"@,
                "CoreAudio"@,
            ],
            NativeLibrary::CoreFoundation => seq![
                "/System/Library/Frameworks/CoreFoundation.framework/CoreFoundation"@,
                "CoreFoundation.framework/CoreFoundation"@,
                "CoreFoundation"@,
            ],
            NativeLibrary::Winmm => seq!["winmm.dll"@],
            NativeLibrary::ObjcRuntime => seq!["/usr/lib/libobjc.A.dylib"@, "libobjc.A.dylib"@],
            NativeLibrary::AvfAudio => seq![
                "/System/Library/Frameworks/AVFAudio.framework/AVFAudio"@,
                "AVFAudio.framework/AVFAudio"@,
                "AVFAudio"@,
            ],
        }
    }

    /// The functions to look up, in order, each by its name.
    pub open spec fn symbols(self) -> Seq<Seq<char>> {
        match self {
            NativeLibrary::Aaudio => seq![
                "AAudio_createStreamBuilder"@,
                "AAudioStreamBuilder_setDirection"@,
                "AAudioStreamBuilder_setSampleRate"@,
                "AAudioStreamBuilder_setChannelCount"@,
                "AAudioStreamBuilder_setFormat"@,
                "AAudioStreamBuilder_openStream"@,
                "AAudioStreamBuilder_delete"@,
                "AAudioStream_requestStart"@,
                "AAudioStream_read"@,
                "AAudioStream_getChannelCount"@,
                "AAudioStream_requestStop"@,
                "AAudioStream_close"@,
                "AAudio_convertResultToText"@,
            ],
            NativeLibrary::Alsa => seq![
                "snd_pcm_open"@,
                "snd_pcm_close"@,
                "snd_pcm_hw_params_malloc"@,
                "snd_pcm_hw_params_free"@,
                "snd_pcm_hw_params_any"@,
                "snd_pcm_hw_params_set_access"@,
                "snd_pcm_hw_params_set_format"@,
                "snd_pcm_hw_params_set_channels"@,
                "snd_pcm_hw_params_set_rate"@,
                "snd_pcm_hw_params"@,
                "snd_pcm_prepare"@,
                "snd_pcm_start"@,
                "snd_pcm_drop"@,
                "snd_pcm_readi"@,
                "snd_strerror"@,
            ],
            NativeLibrary::AudioToolbox { macos } => {
                let shared = seq![
                    "AudioQueueNewInput"@,
                    "AudioQueueAllocateBuffer"@,
                    "AudioQueueEnqueueBuffer"@,
                    "AudioQueueStart"@,
                    "AudioQueueStop"@,
                    "AudioQueueDispose"@,
                    "AudioQueueFreeBuffer"@,
                ];
                if macos {
                    shared.push("AudioQueueSetProperty"@)
                } else {
                    shared
                }
            },
            NativeLibrary::CoreAudio => seq![
                "AudioObjectHasProperty"@,
                "AudioObjectGetPropertyDataSize"@,
                "AudioObjectGetPropertyData"@,
            ],
            NativeLibrary::CoreFoundation => seq![
                "CFStringCreateWithCString"@,
                "CFStringGetCStringPtr"@,
                "CFStringGetCString"@,
                "CFStringGetLength"@,
                "CFStringGetMaximumSizeForEncoding"@,
                "CFRelease"@,
            ],
            NativeLibrary::Winmm => seq![
                "waveInGetNumDevs"@,
                "waveInGetDevCapsW"@,
                "waveInOpen"@,
                "waveInPrepareHeader"@,
                "waveInUnprepareHeader"@,
                "waveInAddBuffer"@,
                "waveInStart"@,
                "waveInStop"@,
                "waveInReset"@,
                "waveInClose"@,
                "waveInGetErrorTextW"@,
            ],
            NativeLibrary::ObjcRuntime => Seq::empty(),
            NativeLibrary::AvfAudio => Seq::empty(),
        }
    }

    /// Why the library could not be loaded, where the last of its paths failed
    /// with `error`.
    pub open spec fn open_message(self, error: Seq<char>) -> Seq<char> {
        match self {
            NativeLibrary::Aaudio => "failed to load libaaudio.so: "@ + error,
            NativeLibrary::Alsa => "failed to load libasound.so.2: "@ + error,
            NativeLibrary::AudioToolbox { .. } => "failed to load AudioToolbox: "@
                + "AudioToolbox"@ + ": "@ + error,
            NativeLibrary::CoreAudio => "failed to load CoreAudio: "@ + "CoreAudio"@ + ": "@
                + error,
            NativeLibrary::CoreFoundation => "failed to load CoreFoundation: "@
                + "CoreFoundation"@ + ": "@ + error,
            NativeLibrary::Winmm => "failed to load winmm.dll: "@ + error,
            NativeLibrary::ObjcRuntime => "load libobjc: "@ + error,
            NativeLibrary::AvfAudio => "load AVFAudio: "@ + error,
        }
    }

    fn path(self, index: usize) -> (path: Option<&'static str>)
        ensures
            match path {
                Some(path) => index < self.paths().len() && path@ == self.paths()[index as int],
                None => index >= self.paths().len(),
            },
            self.paths().len() <= 3,
    {
        match self {
            NativeLibrary::Aaudio => match index {
                0 => Some("libaaudio.so"),
                _ => None,
            },
            NativeLibrary::Alsa => match index {
                0 => Some("libasound.so.2"),
                _ => None,
            },
            NativeLibrary::AudioToolbox { .. } => match index {
                0 => Some("/System/Library/Frameworks/AudioToolbox.framework/AudioToolbox"),
                1 => Some("AudioToolbox.framework/AudioToolbox"),
                2 => Some("AudioToolbox"),
                _ => None,
            },
            NativeLibrary::CoreAudio => match index {
                0 => Some("/System/Library/Frameworks/CoreAudio.framework/CoreAudio"),
                1 => Some("CoreAudio.framework/CoreAudio"),
                2 => Some("CoreAudio"),
                _ => None,
            },
            NativeLibrary::CoreFoundation => match index {
                0 => Some("/System/Library/Frameworks/CoreFoundation.framework/CoreFoundation"),
                1 => Some("CoreFoundation.framework/CoreFoundation"),
                2 => Some("CoreFoundation"),
                _ => None,
            },
            NativeLibrary::Winmm => match index {
                0 => Some("winmm.dll"),
                _ => None,
            },
            NativeLibrary::ObjcRuntime => match index {
                0 => Some("/usr/lib/libobjc.A.dylib"),
                1 => Some("libobjc.A.dylib"),
                _ => None,
            },
            NativeLibrary::AvfAudio => match index {
                0 => Some("/System/Library/Frameworks/AVFAudio.framework/AVFAudio"),
                1 => Some("AVFAudio.framework/AVFAudio"),
                2 => Some("AVFAudio"),
                _ => None,
            },
        }
    }

    fn symbol(self, index: usize) -> (name: Option<&'static str>)
        ensures
            match name {
                Some(name) => index < self.symbols().len() && name@
                    == self.symbols()[index as int],
                None => index >= self.symbols().len(),
            },
            self.symbols().len() <= 15,
    {
        match self {
            NativeLibrary::Aaudio => match index {
                0 => Some("AAudio_createStreamBuilder"),
                1 => Some("AAudioStreamBuilder_setDirection"),
                2 => Some("AAudioStreamBuilder_setSampleRate"),
                3 => Some("AAudioStreamBuilder_setChannelCount"),
                4 => Some("AAudioStreamBuilder_setFormat"),
                5 => Some("AAudioStreamBuilder_openStream"),
                6 => Some("AAudioStreamBuilder_delete"),
                7 => Some("AAudioStream_requestStart"),
                8 => Some("AAudioStream_read"),
                9 => Some("AAudioStream_getChannelCount"),
                10 => Some("AAudioStream_requestStop"),
                11 => Some("AAudioStream_close"),
                12 => Some("AAudio_convertResultToText"),
                _ => None,
            },
            NativeLibrary::Alsa => match index {
                0 => Some("snd_pcm_open"),
                1 => Some("snd_pcm_close"),
                2 => Some("snd_pcm_hw_params_malloc"),
                3 => Some("snd_pcm_hw_params_free"),
                4 => Some("snd_pcm_hw_params_any"),
                5 => Some("snd_pcm_hw_params_set_access"),
                6 => Some("snd_pcm_hw_params_set_format"),
                7 => Some("snd_pcm_hw_params_set_channels"),
                8 => Some("snd_pcm_hw_params_set_rate"),
                9 => Some("snd_pcm_hw_params"),
                10 => Some("snd_pcm_prepare"),
                11 => Some("snd_pcm_start"),
                12 => Some("snd_pcm_drop"),
                13 => Some("snd_pcm_readi"),
                14 => Some("snd_strerror"),
                _ => None,
            },
            NativeLibrary::AudioToolbox { macos } => match index {
                0 => Some("AudioQueueNewInput"),
                1 => Some("AudioQueueAllocateBuffer"),
                2 => Some("AudioQueueEnqueueBuffer"),
                3 => Some("AudioQueueStart"),
                4 => Some("AudioQueueStop"),
                5 => Some("AudioQueueDispose"),
                6 => Some("AudioQueueFreeBuffer"),
                7 => if macos {
                    Some("AudioQueueSetProperty")
                } else {
                    None
                },
                _ => None,
            },
            NativeLibrary::CoreAudio => match index {
                0 => Some("AudioObjectHasProperty"),
                1 => Some("AudioObjectGetPropertyDataSize"),
                2 => Some("AudioObjectGetPropertyData"),
                _ => None,
            },
            NativeLibrary::CoreFoundation => match index {
                0 => Some("CFStringCreateWithCString"),
                1 => Some("CFStringGetCStringPtr"),
                2 => Some("CFStringGetCString"),
                3 => Some("CFStringGetLength"),
                4 => Some("CFStringGetMaximumSizeForEncoding"),
                5 => Some("CFRelease"),
                _ => None,
            },
            NativeLibrary::Winmm => match index {
                0 => Some("waveInGetNumDevs"),
                1 => Some("waveInGetDevCapsW"),
                2 => Some("waveInOpen"),
                3 => Some("waveInPrepareHeader"),
                4 => Some("waveInUnprepareHeader"),
                5 => Some("waveInAddBuffer"),
                6 => Some("waveInStart"),
                7 => Some("waveInStop"),
                8 => Some("waveInReset"),
                9 => Some("waveInClose"),
                10 => Some("waveInGetErrorTextW"),
                _ => None,
            },
            NativeLibrary::ObjcRuntime => None,
            NativeLibrary::AvfAudio => None,
        }
    }

    fn open_failure(self, error: &str) -> (message: String)
        ensures
            message@ == self.open_message(error@),
    {
        match self {
            NativeLibrary::Aaudio => String::from_str("failed to load libaaudio.so: ").concat(
                error,
            ),
            NativeLibrary::Alsa => String::from_str("failed to load libasound.so.2: ").concat(
                error,
            ),
            NativeLibrary::AudioToolbox { .. } => String::from_str(
                "failed to load AudioToolbox: ",
            ).concat("AudioToolbox").concat(": ").concat(error),
            NativeLibrary::CoreAudio => String::from_str("failed to load CoreAudio: ").concat(
                "CoreAudio",
            ).concat(": ").concat(error),
            NativeLibrary::CoreFoundation => String::from_str(
                "failed to load CoreFoundation: ",
            ).concat("CoreFoundation").concat(": ").concat(error),
            NativeLibrary::Winmm => String::from_str("failed to load winmm.dll: ").concat(error),
            NativeLibrary::ObjcRuntime => String::from_str("load libobjc: ").concat(error),
            NativeLibrary::AvfAudio => String::from_str("load AVFAudio: ").concat(error),
        }
    }
}

/// Why a library that lacks the function `name` could not be loaded.
pub open spec fn symbol_message(name: Seq<char>, error: Seq<char>) -> Seq<char> {
    "missing symbol "@ + name + ": "@ + error
}

/// How far loading has come.
#[verifier::ext_equal]
pub enum LoadState {
    /// The path at this index is tried.
    Opening { path: nat },
    /// The function at this index is looked up.
    Resolving { symbol: nat },
    /// The library is loaded and has every function.
    Loaded,
    /// The library could not be loaded.
    Failed { message: Seq<char> },
}

impl LoadState {
    /// Turns to the function at `symbol`.
    pub open spec fn at_symbol(library: NativeLibrary, symbol: nat) -> LoadState {
        if symbol < library.symbols().len() {
            LoadState::Resolving { symbol }
        } else {
            LoadState::Loaded
        }
    }

    /// What follows, where what was tried worked or failed with `error`.
    pub open spec fn after(self, library: NativeLibrary, error: Option<Seq<char>>) -> LoadState {
        match self {
            LoadState::Opening { path } => match error {
                None => Self::at_symbol(library, 0),
                Some(error) => if path + 1 < library.paths().len() {
                    LoadState::Opening { path: path + 1 }
                } else {
                    LoadState::Failed { message: library.open_message(error) }
                },
            },
            LoadState::Resolving { symbol } => match error {
                None => Self::at_symbol(library, symbol + 1),
                Some(error) => LoadState::Failed {
                    message: symbol_message(library.symbols()[symbol as int], error),
                },
            },
            _ => self,
        }
    }

    /// The index that is tried is one of the library's.
    pub open spec fn in_range(self, library: NativeLibrary) -> bool {
        match self {
            LoadState::Opening { path } => path < library.paths().len(),
            LoadState::Resolving { symbol } => symbol < library.symbols().len(),
            _ => true,
        }
    }
}

enum LoadStage {
    Opening { path: usize },
    Resolving { symbol: usize },
    Loaded,
    Failed { message: String },
}

/// What is to be tried next.
#[derive(Clone, Copy, Debug, PartialEq, Eq)]
pub enum LoadRequest {
    /// Open the library at this path.
    Open(&'static str),
    /// Look this function up.
    Resolve(&'static str),
    /// Nothing: the library is loaded.
    Loaded,
    /// Nothing: the library cannot be loaded.
    Failed,
}

/// A library that is being loaded.
pub struct Loader {
    library: NativeLibrary,
    stage: LoadStage,
}

impl View for Loader {
    type V = LoadState;

    closed spec fn view(&self) -> LoadState {
        match self.stage {
            LoadStage::Opening { path } => LoadState::Opening { path: path as nat },
            LoadStage::Resolving { symbol } => LoadState::Resolving { symbol: symbol as nat },
            LoadStage::Loaded => LoadState::Loaded,
            LoadStage::Failed { message } => LoadState::Failed { message: message@ },
        }
    }
}

impl Loader {
    /// The library.
    pub closed spec fn spec_library(&self) -> NativeLibrary {
        self.library
    }

    #[verifier::type_invariant]
    spec fn well_formed(&self) -> bool {
        self@.in_range(self.library)
    }

    /// Begins to load `library`.
    pub fn new(library: NativeLibrary) -> (loader: Loader)
        ensures
            loader.spec_library() == library,
            loader@ == (LoadState::Opening { path: 0 }),
    {
        Loader { library, stage: LoadStage::Opening { path: 0 } }
    }

    /// What is to be tried next.
    pub fn request(&self) -> (request: LoadRequest)
        ensures
            self@.in_range(self.spec_library()),
            match (self@, request) {
                (LoadState::Opening { path }, LoadRequest::Open(tried)) => tried@
                    == self.spec_library().paths()[path as int],
                (LoadState::Resolving { symbol }, LoadRequest::Resolve(tried)) => tried@
                    == self.spec_library().symbols()[symbol as int],
                (LoadState::Loaded, LoadRequest::Loaded) => true,
                (LoadState::Failed { .. }, LoadRequest::Failed) => true,
                _ => false,
            },
    {
        proof {
            use_type_invariant(self);
        }
        match &self.stage {
            LoadStage::Opening { path } => match self.library.path(*path) {
                Some(tried) => LoadRequest::Open(tried),
                None => LoadRequest::Failed,
            },
            LoadStage::Resolving { symbol } => match self.library.symbol(*symbol) {
                Some(tried) => LoadRequest::Resolve(tried),
                None => LoadRequest::Failed,
            },
            LoadStage::Loaded => LoadRequest::Loaded,
            LoadStage::Failed { message: _ } => LoadRequest::Failed,
        }
    }

    /// What was tried worked, or failed with this error.
    pub fn tried(self, result: Result<(), String>) -> (loader: Loader)
        ensures
            loader.spec_library() == self.spec_library(),
            loader@ == self@.after(
                self.spec_library(),
                match result {
                    Ok(_) => None,
                    Err(error) => Some(error@),
                },
            ),
    {
        proof {
            use_type_invariant(&self);
        }
        let Loader { library, stage } = self;
        match stage {
            LoadStage::Opening { path } => match result {
                Ok(_) => Self::at_symbol(library, 0),
                Err(error) => match library.path(path + 1) {
                    Some(_) => Loader { library, stage: LoadStage::Opening { path: path + 1 } },
                    None => Loader {
                        library,
                        stage: LoadStage::Failed { message: library.open_failure(error.as_str()) },
                    },
                },
            },
            LoadStage::Resolving { symbol } => match result {
                Ok(_) => Self::at_symbol(library, symbol + 1),
                Err(error) => {
                    let name = match library.symbol(symbol) {
                        Some(name) => name,
                        None => "",
                    };
                    let message = String::from_str("missing symbol ").concat(name).concat(
                        ": ",
                    ).concat(error.as_str());
                    Loader { library, stage: LoadStage::Failed { message } }
                },
            },
            LoadStage::Loaded => Loader { library, stage: LoadStage::Loaded },
            LoadStage::Failed { message } => Loader {
                library,
                stage: LoadStage::Failed { message },
            },
        }
    }

    fn at_symbol(library: NativeLibrary, symbol: usize) -> (loader: Loader)
        ensures
            loader.spec_library() == library,
            loader@ == LoadState::at_symbol(library, symbol as nat),
    {
        match library.symbol(symbol) {
            Some(_) => Loader { library, stage: LoadStage::Resolving { symbol } },
            None => Loader { library, stage: LoadStage::Loaded },
        }
    }

    /// Why the library could not be loaded, where it could not.
    pub fn failure(&self) -> (message: Option<String>)
        ensures
            match self@ {
                LoadState::Failed { message: text } => message is Some && message->0@ == text,
                _ => message is None,
            },
    {
        match &self.stage {
            LoadStage::Failed { message } => Some(message.clone()),
            _ => None,
        }
    }
}

// ---------------------------------------------------------------------------
// Laws
// ---------------------------------------------------------------------------

/// How loading `library` ends from `at` on, where opening the path at `i` works
/// or fails with `paths[i]`, and looking the function at `i` up works or fails
/// with `symbols[i]`.
pub open spec fn load_end(
    library: NativeLibrary,
    at: LoadState,
    paths: Seq<Option<Seq<char>>>,
    symbols: Seq<Option<Seq<char>>>,
) -> LoadState
    decreases
            (if at is Opening {
                1nat
            } else {
                0nat
            }),
            (match at {
                LoadState::Opening { path } => library.paths().len() - path,
                LoadState::Resolving { symbol } => library.symbols().len() - symbol,
                _ => 0,
            }),
{
    match at {
        LoadState::Opening { path } => if path < library.paths().len() {
            load_end(library, at.after(library, paths[path as int]), paths, symbols)
        } else {
            at
        },
        LoadState::Resolving { symbol } => if symbol < library.symbols().len() {
            load_end(library, at.after(library, symbols[symbol as int]), paths, symbols)
        } else {
            at
        },
        _ => at,
    }
}

/// The first failure among `results` from `from` on, or their number.
pub open spec fn first_error(results: Seq<Option<Seq<char>>>, from: int) -> int
    decreases results.len() - from,
{
    if from >= results.len() {
        results.len() as int
    } else if results[from] is Some {
        from
    } else {
        first_error(results, from + 1)
    }
}

proof fn lemma_first_error(results: Seq<Option<Seq<char>>>, from: int)
    requires
        0 <= from <= results.len(),
    ensures
        from <= first_error(results, from) <= results.len(),
        first_error(results, from) < results.len() ==> results[first_error(
            results,
            from,
        )] is Some,
        forall|i: int| from <= i < first_error(results, from) ==> results[i] is None,
    decreases results.len() - from,
{
    if from < results.len() && results[from] is None {
        lemma_first_error(results, from + 1);
    }
}

proof fn lemma_resolving(
    library: NativeLibrary,
    at: nat,
    paths: Seq<Option<Seq<char>>>,
    symbols: Seq<Option<Seq<char>>>,
)
    requires
        symbols.len() == library.symbols().len(),
        at <= symbols.len(),
    ensures
        ({
            let k = first_error(symbols, at as int);
            load_end(library, LoadState::at_symbol(library, at), paths, symbols) == if k
                < symbols.len() {
                LoadState::Failed {
                    message: symbol_message(library.symbols()[k], symbols[k]->0),
                }
            } else {
                LoadState::Loaded
            }
        }),
    decreases symbols.len() - at,
{
    reveal_with_fuel(load_end, 3);
    if at < symbols.len() && symbols[at as int] is None {
        lemma_resolving(library, at + 1, paths, symbols);
    }
}

proof fn lemma_opening(
    library: NativeLibrary,
    at: nat,
    paths: Seq<Option<Seq<char>>>,
    symbols: Seq<Option<Seq<char>>>,
)
    requires
        paths.len() == library.paths().len(),
        symbols.len() == library.symbols().len(),
        at < paths.len(),
    ensures
        ({
            let end = load_end(library, LoadState::Opening { path: at }, paths, symbols);
            if exists|i: int| at <= i < paths.len() && paths[i] is None {
                end == load_end(library, LoadState::at_symbol(library, 0), paths, symbols)
            } else {
                end == (LoadState::Failed { message: library.open_message(paths.last()->0) })
            }
        }),
    decreases paths.len() - at,
{
    reveal_with_fuel(load_end, 3);
    if paths[at as int] is Some && at + 1 < paths.len() {
        lemma_opening(library, at + 1, paths, symbols);
    }
}

/// A library is loaded exactly where one of its paths opens and every function
/// is found. Otherwise the message tells of the last path, where none opened,
/// and else of the first function that is missing.
pub proof fn law_load(
    library: NativeLibrary,
    paths: Seq<Option<Seq<char>>>,
    symbols: Seq<Option<Seq<char>>>,
)
    requires
        paths.len() == library.paths().len(),
        symbols.len() == library.symbols().len(),
    ensures
        ({
            let end = load_end(library, LoadState::Opening { path: 0 }, paths, symbols);
            let opens = exists|i: int| 0 <= i < paths.len() && paths[i] is None;
            let k = first_error(symbols, 0);
            &&& end is Loaded <==> opens && forall|i: int|
                0 <= i < symbols.len() ==> symbols[i] is None
            &&& !opens ==> end == (LoadState::Failed {
                message: library.open_message(paths.last()->0),
            })
            &&& opens && k < symbols.len() ==> symbols[k] is Some && end == (LoadState::Failed {
                message: symbol_message(library.symbols()[k], symbols[k]->0),
            })
        }),
{
    lemma_opening(library, 0, paths, symbols);
    lemma_resolving(library, 0, paths, symbols);
    lemma_first_error(symbols, 0);
}

proof fn lemma_aaudio_symbols()
    ensures
        !"AAudio_createStreamBuilder"@.contains('\0'),
        !"AAudioStreamBuilder_setDirection"@.contains('\0'),
        !"AAudioStreamBuilder_setSampleRate"@.contains('\0'),
        !"AAudioStreamBuilder_setChannelCount"@.contains('\0'),
        !"AAudioStreamBuilder_setFormat"@.contains('\0'),
        !"AAudioStreamBuilder_openStream"@.contains('\0'),
        !"AAudioStreamBuilder_delete"@.contains('\0'),
        !"AAudioStream_requestStart"@.contains('\0'),
        !"AAudioStream_read"@.contains('\0'),
        !"AAudioStream_getChannelCount"@.contains('\0'),
        !"AAudioStream_requestStop"@.contains('\0'),
        !"AAudioStream_close"@.contains('\0'),
        !"AAudio_convertResultToText"@.contains('\0'),
{
    reveal_strlit("AAudio_createStreamBuilder");
    reveal_strlit("AAudioStreamBuilder_setDirection");
    reveal_strlit("AAudioStreamBuilder_setSampleRate");
    reveal_strlit("AAudioStreamBuilder_setChannelCount");
    reveal_strlit("AAudioStreamBuilder_setFormat");
    reveal_strlit("AAudioStreamBuilder_openStream");
    reveal_strlit("AAudioStreamBuilder_delete");
    reveal_strlit("AAudioStream_requestStart");
    reveal_strlit("AAudioStream_read");
    reveal_strlit("AAudioStream_getChannelCount");
    reveal_strlit("AAudioStream_requestStop");
    reveal_strlit("AAudioStream_close");
    reveal_strlit("AAudio_convertResultToText");
}

proof fn lemma_alsa_symbols()
    ensures
        !"snd_pcm_open"@.contains('\0'),
        !"snd_pcm_close"@.contains('\0'),
        !"snd_pcm_hw_params_malloc"@.contains('\0'),
        !"snd_pcm_hw_params_free"@.contains('\0'),
        !"snd_pcm_hw_params_any"@.contains('\0'),
        !"snd_pcm_hw_params_set_access"@.contains('\0'),
        !"snd_pcm_hw_params_set_format"@.contains('\0'),
        !"snd_pcm_hw_params_set_channels"@.contains('\0'),
        !"snd_pcm_hw_params_set_rate"@.contains('\0'),
        !"snd_pcm_hw_params"@.contains('\0'),
        !"snd_pcm_prepare"@.contains('\0'),
        !"snd_pcm_start"@.contains('\0'),
        !"snd_pcm_drop"@.contains('\0'),
        !"snd_pcm_readi"@.contains('\0'),
        !"snd_strerror"@.contains('\0'),
{
    reveal_strlit("snd_pcm_open");
    reveal_strlit("snd_pcm_close");
    reveal_strlit("snd_pcm_hw_params_malloc");
    reveal_strlit("snd_pcm_hw_params_free");
    reveal_strlit("snd_pcm_hw_params_any");
    reveal_strlit("snd_pcm_hw_params_set_access");
    reveal_strlit("snd_pcm_hw_params_set_format");
    reveal_strlit("snd_pcm_hw_params_set_channels");
    reveal_strlit("snd_pcm_hw_params_set_rate");
    reveal_strlit("snd_pcm_hw_params");
    reveal_strlit("snd_pcm_prepare");
    reveal_strlit("snd_pcm_start");
    reveal_strlit("snd_pcm_drop");
    reveal_strlit("snd_pcm_readi");
    reveal_strlit("snd_strerror");
}

proof fn lemma_audio_toolbox_symbols()
    ensures
        !"AudioQueueNewInput"@.contains('\0'),
        !"AudioQueueAllocateBuffer"@.contains('\0'),
        !"AudioQueueEnqueueBuffer"@.contains('\0'),
        !"AudioQueueStart"@.contains('\0'),
        !"AudioQueueStop"@.contains('\0'),
        !"AudioQueueDispose"@.contains('\0'),
        !"AudioQueueFreeBuffer"@.contains('\0'),
        !"AudioQueueSetProperty"@.contains('\0'),
{
    reveal_strlit("AudioQueueNewInput");
    reveal_strlit("AudioQueueAllocateBuffer");
    reveal_strlit("AudioQueueEnqueueBuffer");
    reveal_strlit("AudioQueueStart");
    reveal_strlit("AudioQueueStop");
    reveal_strlit("AudioQueueDispose");
    reveal_strlit("AudioQueueFreeBuffer");
    reveal_strlit("AudioQueueSetProperty");
}

proof fn lemma_core_audio_symbols()
    ensures
        !"AudioObjectHasProperty"@.contains('\0'),
        !"AudioObjectGetPropertyDataSize"@.contains('\0'),
        !"AudioObjectGetPropertyData"@.contains('\0'),
{
    reveal_strlit("AudioObjectHasProperty");
    reveal_strlit("AudioObjectGetPropertyDataSize");
    reveal_strlit("AudioObjectGetPropertyData");
}

proof fn lemma_core_foundation_symbols()
    ensures
        !"CFStringCreateWithCString"@.contains('\0'),
        !"CFStringGetCStringPtr"@.contains('\0'),
        !"CFStringGetCString"@.contains('\0'),
        !"CFStringGetLength"@.contains('\0'),
        !"CFStringGetMaximumSizeForEncoding"@.contains('\0'),
        !"CFRelease"@.contains('\0'),
{
    reveal_strlit("CFStringCreateWithCString");
    reveal_strlit("CFStringGetCStringPtr");
    reveal_strlit("CFStringGetCString");
    reveal_strlit("CFStringGetLength");
    reveal_strlit("CFStringGetMaximumSizeForEncoding");
    reveal_strlit("CFRelease");
}

proof fn lemma_winmm_symbols()
    ensures
        !"waveInGetNumDevs"@.contains('\0'),
        !"waveInGetDevCapsW"@.contains('\0'),
        !"waveInOpen"@.contains('\0'),
        !"waveInPrepareHeader"@.contains('\0'),
        !"waveInUnprepareHeader"@.contains('\0'),
        !"waveInAddBuffer"@.contains('\0'),
        !"waveInStart"@.contains('\0'),
        !"waveInStop"@.contains('\0'),
        !"waveInReset"@.contains('\0'),
        !"waveInClose"@.contains('\0'),
        !"waveInGetErrorTextW"@.contains('\0'),
{
    reveal_strlit("waveInGetNumDevs");
    reveal_strlit("waveInGetDevCapsW");
    reveal_strlit("waveInOpen");
    reveal_strlit("waveInPrepareHeader");
    reveal_strlit("waveInUnprepareHeader");
    reveal_strlit("waveInAddBuffer");
    reveal_strlit("waveInStart");
    reveal_strlit("waveInStop");
    reveal_strlit("waveInReset");
    reveal_strlit("waveInClose");
    reveal_strlit("waveInGetErrorTextW");
}

proof fn lemma_message_parts()
    ensures
        !"failed to load libaaudio.so: "@.contains('\0'),
        !"failed to load libasound.so.2: "@.contains('\0'),
        !"failed to load AudioToolbox: "@.contains('\0'),
        !"AudioToolbox"@.contains('\0'),
        !": "@.contains('\0'),
        !"failed to load CoreAudio: "@.contains('\0'),
        !"CoreAudio"@.contains('\0'),
        !"failed to load CoreFoundation: "@.contains('\0'),
        !"CoreFoundation"@.contains('\0'),
        !"failed to load winmm.dll: "@.contains('\0'),
        !"load libobjc: "@.contains('\0'),
        !"load AVFAudio: "@.contains('\0'),
        !"missing symbol "@.contains('\0'),
{
    reveal_strlit("failed to load libaaudio.so: ");
    reveal_strlit("failed to load libasound.so.2: ");
    reveal_strlit("failed to load AudioToolbox: ");
    reveal_strlit("AudioToolbox");
    reveal_strlit(": ");
    reveal_strlit("failed to load CoreAudio: ");
    reveal_strlit("CoreAudio");
    reveal_strlit("failed to load CoreFoundation: ");
    reveal_strlit("CoreFoundation");
    reveal_strlit("failed to load winmm.dll: ");
    reveal_strlit("load libobjc: ");
    reveal_strlit("load AVFAudio: ");
    reveal_strlit("missing symbol ");
}

proof fn lemma_joined(a: Seq<char>, b: Seq<char>)
    requires
        !a.contains('\0'),
        !b.contains('\0'),
    ensures
        !(a + b).contains('\0'),
{
    if (a + b).contains('\0') {
        let i = choose|i: int| 0 <= i < (a + b).len() && (a + b)[i] == '\0';
        if i < a.len() {
            assert(a[i] == '\0');
        } else {
            assert(b[i - a.len()] == '\0');
        }
    }
}

/// No name that is looked up holds a NUL, and no message does that tells of an
/// error without one.
pub proof fn law_messages_hold_no_nul(library: NativeLibrary, error: Seq<char>)
    requires
        !error.contains('\0'),
    ensures
        !library.open_message(error).contains('\0'),
        forall|i: int|
            0 <= i < library.symbols().len() ==> {
                &&& !(#[trigger] library.symbols()[i]).contains('\0')
                &&& !symbol_message(library.symbols()[i], error).contains('\0')
            },
{
    lemma_message_parts();
    assert forall|a: Seq<char>, b: Seq<char>|
        !a.contains('\0') && !b.contains('\0') implies !#[trigger] (a + b).contains('\0') by {
        lemma_joined(a, b);
    }
    match library {
        NativeLibrary::Aaudio => lemma_aaudio_symbols(),
        NativeLibrary::Alsa => lemma_alsa_symbols(),
        NativeLibrary::AudioToolbox { .. } => lemma_audio_toolbox_symbols(),
        NativeLibrary::CoreAudio => lemma_core_audio_symbols(),
        NativeLibrary::CoreFoundation => lemma_core_foundation_symbols(),
        NativeLibrary::Winmm => lemma_winmm_symbols(),
        NativeLibrary::ObjcRuntime => {},
        NativeLibrary::AvfAudio => {},
    }
    assert forall|i: int| 0 <= i < library.symbols().len() implies {
        &&& !(#[trigger] library.symbols()[i]).contains('\0')
        &&& !symbol_message(library.symbols()[i], error).contains('\0')
    } by {
        assert(!library.symbols()[i].contains('\0'));
        assert(!("missing symbol "@ + library.symbols()[i]).contains('\0'));
        assert(!("missing symbol "@ + library.symbols()[i] + ": "@).contains('\0'));
    }
}

/// Why a library could not be loaded reads back whole as the last error, be it a
/// path that does not open or a function that is missing: the message has a form
/// as a C string wherever the errors that it tells of have one.
pub proof fn law_load_failure_reads_back(
    library: NativeLibrary,
    paths: Seq<Option<Seq<char>>>,
    symbols: Seq<Option<Seq<char>>>,
)
    requires
        paths.len() == library.paths().len(),
        symbols.len() == library.symbols().len(),
        forall|i: int|
            0 <= i < paths.len() && (#[trigger] paths[i]) is Some ==> !paths[i]->0.contains('\0'),
        forall|i: int|
            0 <= i < symbols.len() && (#[trigger] symbols[i]) is Some ==> !symbols[i]->0.contains(
                '\0',
            ),
    ensures
        match load_end(library, LoadState::Opening { path: 0 }, paths, symbols) {
            LoadState::Failed { message } => message.len() > 0 && c_text(message) == message,
            end => end is Loaded,
        },
{
    law_load(library, paths, symbols);
    lemma_first_error(symbols, 0);
    let opens = exists|i: int| 0 <= i < paths.len() && paths[i] is None;
    let k = first_error(symbols, 0);
    lemma_message_lengths(library);
    if !opens {
        let last = paths[paths.len() - 1];
        assert(last is Some);
        law_messages_hold_no_nul(library, last->0);
    } else if k < symbols.len() {
        law_messages_hold_no_nul(library, symbols[k]->0);
        assert(!library.symbols()[k].contains('\0'));
    }
}

proof fn lemma_message_lengths(library: NativeLibrary)
    ensures
        forall|error: Seq<char>| #[trigger] library.open_message(error).len() > 0,
        forall|name: Seq<char>, error: Seq<char>| #[trigger] symbol_message(name, error).len() > 0,
{
    reveal_strlit("failed to load libaaudio.so: ");
    reveal_strlit("failed to load libasound.so.2: ");
    reveal_strlit("failed to load AudioToolbox: ");
    reveal_strlit("failed to load CoreAudio: ");
    reveal_strlit("failed to load CoreFoundation: ");
    reveal_strlit("failed to load winmm.dll: ");
    reveal_strlit("load libobjc: ");
    reveal_strlit("load AVFAudio: ");
    reveal_strlit("missing symbol ");
}

/// Each library is looked for where its platform keeps it, first by the whole path
/// where it has one, and under its bare name last.
pub proof fn law_paths(macos: bool)
    ensures
        NativeLibrary::Aaudio.paths() == seq!["libaaudio.so"@],
        NativeLibrary::Alsa.paths() == seq!["libasound.so.2"@],
        NativeLibrary::Winmm.paths() == seq!["winmm.dll"@],
        (NativeLibrary::AudioToolbox { macos }).paths() == seq![
            "/System/Library/Frameworks/AudioToolbox.framework/AudioToolbox"@,
            "AudioToolbox.framework/AudioToolbox"@,
            "AudioToolbox"@,
        ],
        NativeLibrary::CoreAudio.paths() == seq![
            "/System/Library/Frameworks/CoreAudio.framework/CoreAudio"@,
            "CoreAudio.framework/CoreAudio"@,
            "CoreAudio"@,
        ],
        NativeLibrary::CoreFoundation.paths() == seq![
            "/System/Library/Frameworks/CoreFoundation.framework/CoreFoundation"@,
            "CoreFoundation.framework/CoreFoundation"@,
            "CoreFoundation"@,
        ],
        NativeLibrary::ObjcRuntime.paths() == seq![
            "/usr/lib/libobjc.A.dylib"@,
            "libobjc.A.dylib"@,
        ],
        NativeLibrary::AvfAudio.paths() == seq![
            "/System/Library/Frameworks/AVFAudio.framework/AVFAudio"@,
            "AVFAudio.framework/AVFAudio"@,
            "AVFAudio"@,
        ],
{
}

/// The functions that capture calls are those that are looked up, each once.
pub proof fn law_functions_looked_up()
    ensures
        NativeLibrary::Aaudio.symbols() == seq![
            "AAudio_createStreamBuilder"@,
            "AAudioStreamBuilder_setDirection"@,
            "AAudioStreamBuilder_setSampleRate"@,
            "AAudioStreamBuilder_setChannelCount"@,
            "AAudioStreamBuilder_setFormat"@,
            "AAudioStreamBuilder_openStream"@,
            "AAudioStreamBuilder_delete"@,
            "AAudioStream_requestStart"@,
            "AAudioStream_read"@,
            "AAudioStream_getChannelCount"@,
            "AAudioStream_requestStop"@,
            "AAudioStream_close"@,
            "AAudio_convertResultToText"@,
        ],
        NativeLibrary::Alsa.symbols() == seq![
            "snd_pcm_open"@,
            "snd_pcm_close"@,
            "snd_pcm_hw_params_malloc"@,
            "snd_pcm_hw_params_free"@,
            "snd_pcm_hw_params_any"@,
            "snd_pcm_hw_params_set_access"@,
            "snd_pcm_hw_params_set_format"@,
            "snd_pcm_hw_params_set_channels"@,
            "snd_pcm_hw_params_set_rate"@,
            "snd_pcm_hw_params"@,
            "snd_pcm_prepare"@,
            "snd_pcm_start"@,
            "snd_pcm_drop"@,
            "snd_pcm_readi"@,
            "snd_strerror"@,
        ],
        NativeLibrary::CoreAudio.symbols() == seq![
            "AudioObjectHasProperty"@,
            "AudioObjectGetPropertyDataSize"@,
            "AudioObjectGetPropertyData"@,
        ],
        NativeLibrary::CoreFoundation.symbols() == seq![
            "CFStringCreateWithCString"@,
            "CFStringGetCStringPtr"@,
            "CFStringGetCString"@,
            "CFStringGetLength"@,
            "CFStringGetMaximumSizeForEncoding"@,
            "CFRelease"@,
        ],
        NativeLibrary::Winmm.symbols() == seq![
            "waveInGetNumDevs"@,
            "waveInGetDevCapsW"@,
            "waveInOpen"@,
            "waveInPrepareHeader"@,
            "waveInUnprepareHeader"@,
            "waveInAddBuffer"@,
            "waveInStart"@,
            "waveInStop"@,
            "waveInReset"@,
            "waveInClose"@,
            "waveInGetErrorTextW"@,
        ],
        (NativeLibrary::AudioToolbox { macos: true }).symbols() == seq![
            "AudioQueueNewInput"@,
            "AudioQueueAllocateBuffer"@,
            "AudioQueueEnqueueBuffer"@,
            "AudioQueueStart"@,
            "AudioQueueStop"@,
            "AudioQueueDispose"@,
            "AudioQueueFreeBuffer"@,
            "AudioQueueSetProperty"@,
        ],
        (NativeLibrary::AudioToolbox { macos: false }).symbols() == seq![
            "AudioQueueNewInput"@,
            "AudioQueueAllocateBuffer"@,
            "AudioQueueEnqueueBuffer"@,
            "AudioQueueStart"@,
            "AudioQueueStop"@,
            "AudioQueueDispose"@,
            "AudioQueueFreeBuffer"@,
        ],
        NativeLibrary::ObjcRuntime.symbols().len() == 0,
        NativeLibrary::AvfAudio.symbols().len() == 0,
{
}

/// Whatever the error, the message of a library that does not load names the
/// library, or the function that it lacks, and ends in the error.
pub proof fn law_load_messages(macos: bool, name: Seq<char>, error: Seq<char>)
    ensures
        NativeLibrary::Aaudio.open_message(error) == "failed to load libaaudio.so: "@ + error,
        NativeLibrary::Alsa.open_message(error) == "failed to load libasound.so.2: "@ + error,
        NativeLibrary::Winmm.open_message(error) == "failed to load winmm.dll: "@ + error,
        (NativeLibrary::AudioToolbox { macos }).open_message(error)
            == "failed to load AudioToolbox: "@ + "AudioToolbox"@ + ": "@ + error,
        NativeLibrary::CoreAudio.open_message(error) == "failed to load CoreAudio: "@
            + "CoreAudio"@ + ": "@ + error,
        NativeLibrary::CoreFoundation.open_message(error) == "failed to load CoreFoundation: "@
            + "CoreFoundation"@ + ": "@ + error,
        NativeLibrary::ObjcRuntime.open_message(error) == "load libobjc: "@ + error,
        NativeLibrary::AvfAudio.open_message(error) == "load AVFAudio: "@ + error,
        symbol_message(name, error) == "missing symbol "@ + name + ": "@ + error,
{
}

/// How loading goes on from each try, whatever its error: a path that does not open
/// leads to the next one, one that opens to the functions, each function found to
/// the next, and the last one to a loaded library.
pub proof fn law_load_steps(library: NativeLibrary, at: nat, error: Seq<char>)
    ensures
        ({
            let opening = LoadState::Opening { path: at };
            let resolving = LoadState::Resolving { symbol: at };
            &&& at + 1 < library.paths().len() ==> opening.after(library, Some(error))
                == (LoadState::Opening { path: at + 1 })
            &&& at + 1 == library.paths().len() ==> opening.after(library, Some(error)) is Failed
            &&& library.symbols().len() > 0 ==> opening.after(library, None)
                == (LoadState::Resolving { symbol: 0 })
            &&& library.symbols().len() == 0 ==> opening.after(library, None) is Loaded
            &&& at + 1 < library.symbols().len() ==> resolving.after(library, None)
                == (LoadState::Resolving { symbol: at + 1 })
            &&& at + 1 == library.symbols().len() ==> resolving.after(library, None) is Loaded
            &&& at < library.symbols().len() ==> resolving.after(library, Some(error)) is Failed
        }),
{
}

} // verus!

use microphone::loader::{LoadRequest, Loader, NativeLibrary};

fn load(
    library: NativeLibrary,
    opens: &dyn Fn(&str) -> bool,
    resolves: &dyn Fn(&str) -> bool,
) -> (Vec<&'static str>, Option<String>) {
    let mut loader = Loader::new(library);
    let mut tried = Vec::new();
    loop {
        let (name, works) = match loader.request() {
            LoadRequest::Open(path) => (path, opens(path)),
            LoadRequest::Resolve(symbol) => (symbol, resolves(symbol)),
            LoadRequest::Loaded | LoadRequest::Failed => return (tried, loader.failure()),
        };
        tried.push(name);
        loader = loader.tried(if works { Ok(()) } else { Err(format!("no {}", tried.len())) });
    }
}

#[test]
fn loads_audiotoolbox() {
    let (tried, failure) = load(NativeLibrary::AudioToolbox { macos: true }, &|_| true, &|_| true);
    assert_eq!(failure, None, "AudioToolbox loads on this host");
    assert_eq!(
        tried,
        vec![
            "/System/Library/Frameworks/AudioToolbox.framework/AudioToolbox",
            "AudioQueueNewInput",
            "AudioQueueAllocateBuffer",
            "AudioQueueEnqueueBuffer",
            "AudioQueueStart",
            "AudioQueueStop",
            "AudioQueueDispose",
            "AudioQueueFreeBuffer",
            "AudioQueueSetProperty",
        ]
    );
}

#[test]
fn loads_winmm() {
    let (tried, failure) = load(NativeLibrary::Winmm, &|_| true, &|_| true);
    assert_eq!(failure, None, "winmm.dll loads on this host");
    assert_eq!(tried[0], "winmm.dll");
    assert_eq!(tried.len(), 12);
}

#[test]
fn queue_properties_are_looked_up_on_macos_only() {
    let (tried, failure) = load(NativeLibrary::AudioToolbox { macos: false }, &|_| true, &|_| true);
    assert_eq!(failure, None);
    assert_eq!(tried.len(), 8);
    assert!(!tried.contains(&"AudioQueueSetProperty"));
}

#[test]
fn the_first_path_that_opens_is_used() {
    let (tried, failure) = load(
        NativeLibrary::CoreAudio,
        &|path| path == "CoreAudio.framework/CoreAudio",
        &|_| true,
    );
    assert_eq!(failure, None);
    assert_eq!(
        tried,
        vec![
            "/System/Library/Frameworks/CoreAudio.framework/CoreAudio",
            "CoreAudio.framework/CoreAudio",
            "AudioObjectHasProperty",
            "AudioObjectGetPropertyDataSize",
            "AudioObjectGetPropertyData",
        ]
    );
}

#[test]
fn a_library_that_does_not_open_tells_of_its_last_path() {
    let message = |library| load(library, &|_| false, &|_| true).1.unwrap();
    assert_eq!(message(NativeLibrary::Aaudio), "failed to load libaaudio.so: no 1");
    assert_eq!(message(NativeLibrary::Alsa), "failed to load libasound.so.2: no 1");
    assert_eq!(
        message(NativeLibrary::AudioToolbox { macos: true }),
        "failed to load AudioToolbox: AudioToolbox: no 3"
    );
    assert_eq!(message(NativeLibrary::CoreAudio), "failed to load CoreAudio: CoreAudio: no 3");
    assert_eq!(
        message(NativeLibrary::CoreFoundation),
        "failed to load CoreFoundation: CoreFoundation: no 3"
    );
    assert_eq!(message(NativeLibrary::Winmm), "failed to load winmm.dll: no 1");
    assert_eq!(message(NativeLibrary::ObjcRuntime), "load libobjc: no 2");
    assert_eq!(message(NativeLibrary::AvfAudio), "load AVFAudio: no 3");
}

#[test]
fn a_missing_function_is_named() {
    let (tried, failure) = load(NativeLibrary::Alsa, &|_| true, &|name| name != "snd_pcm_start");
    assert_eq!(tried.last(), Some(&"snd_pcm_start"));
    assert_eq!(failure.as_deref(), Some("missing symbol snd_pcm_start: no 13"));
}

#[test]
fn a_library_without_functions_is_loaded_once_it_opens() {
    let (tried, failure) = load(NativeLibrary::AvfAudio, &|path| path == "AVFAudio", &|_| false);
    assert_eq!(tried.len(), 3);
    assert_eq!(failure, None);
}

#[test]
fn every_library_looks_all_its_functions_up() {
    let count = |library| load(library, &|_| true, &|_| true).0.len() - 1;
    assert_eq!(count(NativeLibrary::Aaudio), 13);
    assert_eq!(count(NativeLibrary::Alsa), 15);
    assert_eq!(count(NativeLibrary::CoreFoundation), 6);
    assert_eq!(count(NativeLibrary::ObjcRuntime), 0);
}

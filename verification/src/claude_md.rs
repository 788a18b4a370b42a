//! Generation of the per-project guidance file that the assistant-CLI
//! integration reads when helping users develop their plugins. Core guides
//! (basics and the UI framework guide) are inlined for immediate access;
//! additional guides are listed for on-demand use. The generation is
//! framework-aware and emits language-appropriate examples.

use vstd::prelude::*;
use vstd::string::*;

use crate::text::find_sub;
use crate::text::has_prefix;
use crate::text::join;
use crate::text::joined;
use crate::text::match_at;

verus! {

/// Framework information for guidance generation.
pub struct FrameworkInfo {
    pub id: String,
    pub display_name: String,
    pub language: String,
}

impl Default for FrameworkInfo {
    fn default() -> (r: FrameworkInfo)
        ensures
            r.id@ == "nih-plug"@,
            r.display_name@ == "nih-plug (Rust)"@,
            r.language@ == "rust"@,
    {
        FrameworkInfo {
            id: "nih-plug".to_owned(),
            display_name: "nih-plug (Rust)".to_owned(),
            language: "rust".to_owned(),
        }
    }
}

/// Guide content to inline into the generated file.
pub struct InlinedGuides {
    /// Framework basics guide content.
    pub basics: Option<String>,
    /// UI framework guide content.
    pub ui_framework: Option<String>,
}

impl Default for InlinedGuides {
    fn default() -> (r: InlinedGuides)
        ensures
            r.basics is None,
            r.ui_framework is None,
    {
        InlinedGuides { basics: None, ui_framework: None }
    }
}

/// The position of the first occurrence of `sub` in `s`.
pub open spec fn find_first(s: Seq<char>, sub: Seq<char>) -> Option<int>
    decreases s.len(),
{
    if match_at(s, sub, 0) {
        Some(0)
    } else if s.len() == 0 {
        None
    } else {
        match find_first(s.skip(1), sub) {
            Some(i) => Some(i + 1),
            None => None,
        }
    }
}

pub proof fn lemma_find_first(s: Seq<char>, sub: Seq<char>)
    ensures
        match find_first(s, sub) {
            Some(i) => match_at(s, sub, i) && forall|j: int| 0 <= j < i ==> !match_at(s, sub, j),
            None => forall|j: int| !match_at(s, sub, j),
        },
    decreases s.len(),
{
    if !match_at(s, sub, 0) && s.len() > 0 {
        lemma_find_first(s.skip(1), sub);
        assert forall|j: int| 0 <= j implies match_at(s.skip(1), sub, j) == match_at(
            s,
            sub,
            j + 1,
        ) by {
            if j + 1 + sub.len() <= s.len() {
                assert(s.skip(1).subrange(j, j + sub.len()) =~= s.subrange(
                    j + 1,
                    j + 1 + sub.len(),
                ));
            }
        }
        match find_first(s.skip(1), sub) {
            Some(i) => {
                assert(match_at(s.skip(1), sub, i) == match_at(s, sub, i + 1));
                assert forall|j: int| 0 <= j < i + 1 implies !match_at(s, sub, j) by {
                    if j >= 1 {
                        assert(match_at(s.skip(1), sub, j - 1) == match_at(s, sub, j));
                    }
                }
            },
            None => {
                assert forall|j: int| !match_at(s, sub, j) implies true by {}
                assert forall|j: int| 0 <= j implies !match_at(s, sub, j) by {
                    if j >= 1 {
                        assert(match_at(s.skip(1), sub, j - 1) == match_at(s, sub, j));
                        assert(!match_at(s.skip(1), sub, j - 1));
                    }
                }
            },
        }
    }
}

/// `s` without its leading newline characters.
pub open spec fn dropped_newlines(s: Seq<char>) -> Seq<char>
    decreases s.len(),
{
    if s.len() > 0 && s[0] == '\n' {
        dropped_newlines(s.skip(1))
    } else {
        s
    }
}

/// The content with a YAML frontmatter block (between an opening `---` and
/// the next line starting `---`) removed; content without one is unchanged.
pub open spec fn frontmatter_stripped(s: Seq<char>) -> Seq<char> {
    if has_prefix(s, "---"@) {
        match find_first(s.skip(3), "\n---"@) {
            Some(i) => dropped_newlines(s.skip(3).skip(i + 4)),
            None => s,
        }
    } else {
        s
    }
}

/// Strip YAML frontmatter from markdown content.
pub fn strip_frontmatter(content: &str) -> (r: String)
    ensures
        r@ == frontmatter_stripped(content@),
{
    proof {
        reveal_strlit("---");
        reveal_strlit("\n---");
        lemma_find_first(content@.skip(3), "\n---"@);
    }
    let n = content.unicode_len();
    if !crate::text::starts_with(content, "---") {
        return content.to_owned();
    }
    let rest = content.substring_char(3, n);
    proof {
        assert(rest@ =~= content@.skip(3));
    }
    match find_sub(rest, "\n---") {
        Some(p) => {
            let rest_n = n - 3;
            let start = p + 4;
            let tail = rest.substring_char(start, rest_n);
            proof {
                assert(tail@ =~= content@.skip(3).skip(p + 4));
            }
            let tail_n = rest_n - start;
            let mut k: usize = 0;
            proof {
                assert(tail@.skip(0) =~= tail@);
            }
            while k < tail_n && tail.get_char(k) == '\n'
                invariant
                    tail_n == tail@.len(),
                    k <= tail_n,
                    dropped_newlines(tail@) == dropped_newlines(tail@.skip(k as int)),
                decreases tail_n - k,
            {
                proof {
                    assert(tail@.skip(k as int).skip(1) =~= tail@.skip(k + 1));
                }
                k = k + 1;
            }
            proof {
                assert(dropped_newlines(tail@.skip(k as int)) == tail@.skip(k as int));
            }
            let out = tail.substring_char(k, tail_n);
            proof {
                assert(out@ =~= tail@.skip(k as int));
            }
            out.to_owned()
        },
        None => content.to_owned(),
    }
}

/// The components list as displayed: "None" when absent or empty, else the
/// names joined with a comma.
pub open spec fn components_str_spec(components: Option<Seq<Seq<char>>>) -> Seq<char> {
    match components {
        Some(v) => if v.len() == 0 {
            "None"@
        } else {
            joined(v, ", "@)
        },
        None => "None"@,
    }
}

/// The header and project-configuration section.
pub open spec fn header_text(
    name: Seq<char>,
    fw_display: Seq<char>,
    language: Seq<char>,
    template: Seq<char>,
    ui_framework: Seq<char>,
    components_str: Seq<char>,
) -> Seq<char> {
    r#"# "#@ + name + r#" - Plugin Development Context

> This is a **"#@ + fw_display + r#"** audio plugin project. Detailed implementation patterns
> are available as guides in `.assistant/commands/`. Invoke them with `/guide-name` when you need
> specific guidance.

## Project Configuration

- **Framework**: "#@ + fw_display + r#"
- **Language**: "#@ + language + r#"
- **Type**: "#@ + template + r#"
- **UI Framework**: "#@ + ui_framework + r#"
- **Components**: "#@ + components_str + r#"

## Current Implementation

Update this section **once per completed feature** (not every turn). This is your memory across sessions.

### Parameters
<!-- - `param_name`: description (range) -->

### Features
<!-- - Feature name: brief description -->

### Notes
<!-- Key decisions: filter topology, voice count, etc. -->

## User Notes

Your private observations about working with this user. Update as you notice patterns.

### Explicit Preferences
<!-- Rules they've stated: "always X", "never Y", "I prefer Z" -->

### Observed Patterns
<!-- Things you've noticed: their aesthetic taste, complexity comfort level, communication style, what makes them happy/frustrated -->

"#@
}

fn generate_header(
    project_name: &str,
    template: &str,
    ui_framework: &str,
    components: Option<&Vec<String>>,
    framework: &FrameworkInfo,
) -> (r: String)
    ensures
        r@ == header_text(
            project_name@,
            framework.display_name@,
            framework.language@,
            template@,
            ui_framework@,
            components_str_spec(match components {
                Some(c) => Some(c.deep_view()),
                None => None,
            }),
        ),
{
    let components_str: String = match components {
        Some(c) => {
            if c.len() == 0 {
                "None".to_owned()
            } else {
                join(c, ", ")
            }
        },
        None => "None".to_owned(),
    };
    let framework_display_name: &str = framework.display_name.as_str();
    let language: &str = framework.language.as_str();
    let mut content = String::new();
    content.append(r#"# "#);
    content.append(project_name);
    content.append(r#" - Plugin Development Context

> This is a **"#);
    content.append(framework_display_name);
    content.append(r#"** audio plugin project. Detailed implementation patterns
> are available as guides in `.assistant/commands/`. Invoke them with `/guide-name` when you need
> specific guidance.

## Project Configuration

- **Framework**: "#);
    content.append(framework_display_name);
    content.append(r#"
- **Language**: "#);
    content.append(language);
    content.append(r#"
- **Type**: "#);
    content.append(template);
    content.append(r#"
- **UI Framework**: "#);
    content.append(ui_framework);
    content.append(r#"
- **Components**: "#);
    content.append(components_str.as_str());
    content.append(r#"

## Current Implementation

Update this section **once per completed feature** (not every turn). This is your memory across sessions.

### Parameters
<!-- - `param_name`: description (range) -->

### Features
<!-- - Feature name: brief description -->

### Notes
<!-- Key decisions: filter topology, voice count, etc. -->

## User Notes

Your private observations about working with this user. Update as you notice patterns.

### Explicit Preferences
<!-- Rules they've stated: "always X", "never Y", "I prefer Z" -->

### Observed Patterns
<!-- Things you've noticed: their aesthetic taste, complexity comfort level, communication style, what makes them happy/frustrated -->

"#);
    proof {
        assert(content@ =~= header_text(
            project_name@,
            framework.display_name@,
            framework.language@,
            template@,
            ui_framework@,
            components_str@,
        ));
    }
    content
}

/// The on-demand row for a plugin type.
pub open spec fn type_line(template: Seq<char>) -> Seq<char> {
    if template == "effect"@ {
        "| `/effect-patterns` | Dry/wet mixing, delay lines, dynamics, distortion, reverb |\n"@
    } else if template == "instrument"@ {
        "| `/instrument-patterns` | MIDI handling, voice management, ADSR, oscillators |\n"@
    } else {
        Seq::empty()
    }
}

/// The on-demand row for one starter component; unknown ids add nothing.
pub open spec fn component_row(c: Seq<char>) -> Seq<char> {
    if c == "preset_system"@ {
        "| `/preset-system` | Preset save/load, factory presets |\n"@
    } else
    if c == "param_smoothing"@ {
        "| `/param-smoothing` | Advanced parameter smoothing |\n"@
    } else
    if c == "sidechain_input"@ {
        "| `/sidechain-input` | Aux input, sidechain processing |\n"@
    } else
    if c == "oversampling"@ {
        "| `/oversampling` | Oversampling for nonlinear processing |\n"@
    } else
    if c == "polyphony"@ {
        "| `/polyphony` | Voice management, allocation, stealing |\n"@
    } else
    if c == "velocity_layers"@ {
        "| `/velocity-layers` | Velocity layer selection |\n"@
    } else
    if c == "adsr_envelope"@ {
        "| `/adsr-envelope` | ADSR envelope implementation |\n"@
    } else
    if c == "lfo"@ {
        "| `/lfo` | LFO implementation, tempo sync |\n"@
    } else {
        Seq::empty()
    }
}

/// The rows for a list of starter components, in order.
pub open spec fn component_rows(cs: Seq<Seq<char>>) -> Seq<char>
    decreases cs.len(),
{
    if cs.len() == 0 {
        Seq::empty()
    } else {
        component_rows(cs.drop_last()) + component_row(cs.last())
    }
}

fn push_component_row(content: &mut String, c: &str)
    ensures
        final(content)@ == old(content)@ + component_row(c@),
{
    proof {
        assert(old(content)@ + Seq::<char>::empty() =~= old(content)@);
    }
    if crate::text::str_eq(c, "preset_system") {
        content.append("| `/preset-system` | Preset save/load, factory presets |\n");
        return ;
    }
    if crate::text::str_eq(c, "param_smoothing") {
        content.append("| `/param-smoothing` | Advanced parameter smoothing |\n");
        return ;
    }
    if crate::text::str_eq(c, "sidechain_input") {
        content.append("| `/sidechain-input` | Aux input, sidechain processing |\n");
        return ;
    }
    if crate::text::str_eq(c, "oversampling") {
        content.append("| `/oversampling` | Oversampling for nonlinear processing |\n");
        return ;
    }
    if crate::text::str_eq(c, "polyphony") {
        content.append("| `/polyphony` | Voice management, allocation, stealing |\n");
        return ;
    }
    if crate::text::str_eq(c, "velocity_layers") {
        content.append("| `/velocity-layers` | Velocity layer selection |\n");
        return ;
    }
    if crate::text::str_eq(c, "adsr_envelope") {
        content.append("| `/adsr-envelope` | ADSR envelope implementation |\n");
        return ;
    }
    if crate::text::str_eq(c, "lfo") {
        content.append("| `/lfo` | LFO implementation, tempo sync |\n");
        return ;
    }
}

/// The on-demand guide manifest: what can be invoked by slash command.
pub open spec fn manifest_text(template: Seq<char>, components: Option<Seq<Seq<char>>>) -> Seq<
    char,
> {
    r#"## On-Demand Guides

Additional guides are available in `.assistant/commands/`. Invoke with `/guide-name`:

| Guide | Purpose |
|-------|---------|
| `/dsp-safety` | Critical DSP safety rules, anti-hallucination guardrails |
"#@ + type_line(template) + (match components {
        Some(v) => component_rows(v),
        None => Seq::empty(),
    }) + "\n"@
}

fn generate_guide_manifest(template: &str, components: Option<&Vec<String>>) -> (r: String)
    ensures
        r@ == manifest_text(
            template@,
            match components {
                Some(c) => Some(c.deep_view()),
                None => None,
            },
        ),
{
    let mut content = r#"## On-Demand Guides

Additional guides are available in `.assistant/commands/`. Invoke with `/guide-name`:

| Guide | Purpose |
|-------|---------|
| `/dsp-safety` | Critical DSP safety rules, anti-hallucination guardrails |
"#.to_owned();
    if crate::text::str_eq(template, "effect") {
        content.append("| `/effect-patterns` | Dry/wet mixing, delay lines, dynamics, distortion, reverb |\n");
    } else if crate::text::str_eq(template, "instrument") {
        content.append("| `/instrument-patterns` | MIDI handling, voice management, ADSR, oscillators |\n");
    }
    match components {
        Some(comps) => {
            let mut i: usize = 0;
            proof {
                assert(comps.deep_view().take(0) =~= Seq::<Seq<char>>::empty());
                assert(content@ + Seq::<char>::empty() =~= content@);
            }
            while i < comps.len()
                invariant
                    i <= comps.deep_view().len(),
                    comps.deep_view().len() == comps@.len(),
                    content@ == r#"## On-Demand Guides

Additional guides are available in `.assistant/commands/`. Invoke with `/guide-name`:

| Guide | Purpose |
|-------|---------|
| `/dsp-safety` | Critical DSP safety rules, anti-hallucination guardrails |
"#@ + type_line(template@) + component_rows(
                        comps.deep_view().take(i as int),
                    ),
                decreases comps@.len() - i,
            {
                proof {
                    assert(comps.deep_view().take(i + 1).drop_last() =~= comps.deep_view().take(
                        i as int,
                    ));
                    assert(comps.deep_view().take(i + 1).last() == comps.deep_view()[i as int]);
                }
                let c: &String = &comps[i];
                assert(c@ == comps.deep_view()[i as int]);
                push_component_row(&mut content, c.as_str());
                i = i + 1;
            }
            proof {
                assert(comps.deep_view().take(i as int) =~= comps.deep_view());
            }
            content.append("\n");
            content
        },
        None => {
            proof {
                assert(content@ + Seq::<char>::empty() =~= content@);
            }
            content.append("\n");
            content
        },
    }
}

/// The always-included safety reminders, for the framework's language.
pub open spec fn rust_safety_text() -> Seq<char> {
    r#"## Critical Safety Rules

**ALWAYS protect against NaN/Inf** (crashes DAWs):
```rust
// In process() - after all DSP processing:
if !sample.is_finite() {
    *sample = 0.0;
}
```

**NEVER allocate in process()** - pre-allocate in `initialize()`:
```rust
fn initialize(&mut self, ...) -> bool {
    self.buffer = vec![0.0; MAX_SIZE];  // OK here
    true
}

fn process(&mut self, ...) {
    // NO: self.buffer.push(x);  // Allocates!
    // YES: self.buffer[idx] = x;
}
```

**NEVER invent filter coefficients** - use the `biquad` crate or Audio EQ Cookbook.

For detailed safety rules, invoke `/dsp-safety`.

"#@
}

pub open spec fn cpp_safety_text() -> Seq<char> {
    r#"## Critical Safety Rules

**ALWAYS protect against NaN/Inf** (crashes DAWs):
```cpp
// In processBlock() - after all DSP processing:
if (!std::isfinite(sample)) {
    sample = 0.0f;
}
```

**NEVER allocate in processBlock()** - pre-allocate in `prepareToPlay()`:
```cpp
void prepareToPlay(double sampleRate, int samplesPerBlock) override {
    buffer.resize(MAX_SIZE);  // OK here
}

void processBlock(AudioBuffer<float>& buffer, MidiBuffer& midi) override {
    // NO: buffer.push_back(x);  // Allocates!
    // YES: buffer[idx] = x;
}
```

**NEVER invent filter coefficients** - use juce::dsp::IIR or Audio EQ Cookbook.

For detailed safety rules, invoke `/dsp-safety`.

"#@
}

pub open spec fn critical_safety_text(language: Seq<char>) -> Seq<char> {
    if language == "cpp"@ || language == "c++"@ {
        cpp_safety_text()
    } else {
        rust_safety_text()
    }
}

fn generate_rust_safety() -> (r: String)
    ensures
        r@ == rust_safety_text(),
{
    r#"## Critical Safety Rules

**ALWAYS protect against NaN/Inf** (crashes DAWs):
```rust
// In process() - after all DSP processing:
if !sample.is_finite() {
    *sample = 0.0;
}
```

**NEVER allocate in process()** - pre-allocate in `initialize()`:
```rust
fn initialize(&mut self, ...) -> bool {
    self.buffer = vec![0.0; MAX_SIZE];  // OK here
    true
}

fn process(&mut self, ...) {
    // NO: self.buffer.push(x);  // Allocates!
    // YES: self.buffer[idx] = x;
}
```

**NEVER invent filter coefficients** - use the `biquad` crate or Audio EQ Cookbook.

For detailed safety rules, invoke `/dsp-safety`.

"#.to_owned()
}

fn generate_cpp_safety() -> (r: String)
    ensures
        r@ == cpp_safety_text(),
{
    r#"## Critical Safety Rules

**ALWAYS protect against NaN/Inf** (crashes DAWs):
```cpp
// In processBlock() - after all DSP processing:
if (!std::isfinite(sample)) {
    sample = 0.0f;
}
```

**NEVER allocate in processBlock()** - pre-allocate in `prepareToPlay()`:
```cpp
void prepareToPlay(double sampleRate, int samplesPerBlock) override {
    buffer.resize(MAX_SIZE);  // OK here
}

void processBlock(AudioBuffer<float>& buffer, MidiBuffer& midi) override {
    // NO: buffer.push_back(x);  // Allocates!
    // YES: buffer[idx] = x;
}
```

**NEVER invent filter coefficients** - use juce::dsp::IIR or Audio EQ Cookbook.

For detailed safety rules, invoke `/dsp-safety`.

"#.to_owned()
}

fn generate_critical_safety(framework: &FrameworkInfo) -> (r: String)
    ensures
        r@ == critical_safety_text(framework.language@),
{
    let lang = framework.language.as_str();
    if crate::text::str_eq(lang, "cpp") || crate::text::str_eq(lang, "c++") {
        generate_cpp_safety()
    } else {
        generate_rust_safety()
    }
}

/// The minimal quick reference used when no basics guide is inlined.
pub open spec fn rust_reference_text() -> Seq<char> {
    r#"## Quick Reference

### Parameter Setup
```rust
FloatParam::new("Gain", util::db_to_gain(0.0), FloatRange::Skewed {
    min: util::db_to_gain(-30.0),
    max: util::db_to_gain(30.0),
    factor: FloatRange::gain_skew_factor(-30.0, 30.0),
})
.with_smoother(SmoothingStyle::Logarithmic(50.0))
.with_unit(" dB")
```

### Process Loop
```rust
fn process(&mut self, buffer: &mut Buffer, ...) -> ProcessStatus {
    for channel_samples in buffer.iter_samples() {
        let gain = self.params.gain.smoothed.next();  // Call ONCE per sample
        for sample in channel_samples {
            *sample *= gain;
            if !sample.is_finite() { *sample = 0.0; }  // Safety
        }
    }
    ProcessStatus::Normal
}
```

### Files to Modify
| Task | File(s) |
|------|---------|
| Add parameter | `src/lib.rs` (Params struct) |
| DSP logic | `src/lib.rs` (process function) |
| UI controls | `src/ui.html` (WebView) or `src/lib.rs` editor() (egui) |

"#@
}

pub open spec fn cpp_reference_text() -> Seq<char> {
    r#"## Quick Reference

### Parameter Setup
```cpp
addParameter(gain = new AudioParameterFloat(
    "gain",           // parameterID
    "Gain",           // name
    NormalisableRange<float>(-30.0f, 30.0f, 0.1f, // skew for dB
        [](float start, float end, float v) { return juce::jmap(v, start, end); },
        [](float start, float end, float v) { return juce::jmap(v, start, end, 0.0f, 1.0f); }),
    0.0f              // default value
));
```

### Process Loop
```cpp
void processBlock(AudioBuffer<float>& buffer, MidiBuffer& midiMessages) override {
    auto gainValue = gain->get();

    for (int channel = 0; channel < buffer.getNumChannels(); ++channel) {
        auto* channelData = buffer.getWritePointer(channel);
        for (int sample = 0; sample < buffer.getNumSamples(); ++sample) {
            channelData[sample] *= Decibels::decibelsToGain(gainValue);
            if (!std::isfinite(channelData[sample])) channelData[sample] = 0.0f;
        }
    }
}
```

### Files to Modify
| Task | File(s) |
|------|---------|
| Add parameter | `PluginProcessor.cpp` (constructor) |
| DSP logic | `PluginProcessor.cpp` (processBlock) |
| UI controls | `PluginEditor.cpp` |

"#@
}

pub open spec fn quick_reference_text(language: Seq<char>) -> Seq<char> {
    if language == "cpp"@ || language == "c++"@ {
        cpp_reference_text()
    } else {
        rust_reference_text()
    }
}

fn generate_rust_reference() -> (r: String)
    ensures
        r@ == rust_reference_text(),
{
    r#"## Quick Reference

### Parameter Setup
```rust
FloatParam::new("Gain", util::db_to_gain(0.0), FloatRange::Skewed {
    min: util::db_to_gain(-30.0),
    max: util::db_to_gain(30.0),
    factor: FloatRange::gain_skew_factor(-30.0, 30.0),
})
.with_smoother(SmoothingStyle::Logarithmic(50.0))
.with_unit(" dB")
```

### Process Loop
```rust
fn process(&mut self, buffer: &mut Buffer, ...) -> ProcessStatus {
    for channel_samples in buffer.iter_samples() {
        let gain = self.params.gain.smoothed.next();  // Call ONCE per sample
        for sample in channel_samples {
            *sample *= gain;
            if !sample.is_finite() { *sample = 0.0; }  // Safety
        }
    }
    ProcessStatus::Normal
}
```

### Files to Modify
| Task | File(s) |
|------|---------|
| Add parameter | `src/lib.rs` (Params struct) |
| DSP logic | `src/lib.rs` (process function) |
| UI controls | `src/ui.html` (WebView) or `src/lib.rs` editor() (egui) |

"#.to_owned()
}

fn generate_cpp_reference() -> (r: String)
    ensures
        r@ == cpp_reference_text(),
{
    r#"## Quick Reference

### Parameter Setup
```cpp
addParameter(gain = new AudioParameterFloat(
    "gain",           // parameterID
    "Gain",           // name
    NormalisableRange<float>(-30.0f, 30.0f, 0.1f, // skew for dB
        [](float start, float end, float v) { return juce::jmap(v, start, end); },
        [](float start, float end, float v) { return juce::jmap(v, start, end, 0.0f, 1.0f); }),
    0.0f              // default value
));
```

### Process Loop
```cpp
void processBlock(AudioBuffer<float>& buffer, MidiBuffer& midiMessages) override {
    auto gainValue = gain->get();

    for (int channel = 0; channel < buffer.getNumChannels(); ++channel) {
        auto* channelData = buffer.getWritePointer(channel);
        for (int sample = 0; sample < buffer.getNumSamples(); ++sample) {
            channelData[sample] *= Decibels::decibelsToGain(gainValue);
            if (!std::isfinite(channelData[sample])) channelData[sample] = 0.0f;
        }
    }
}
```

### Files to Modify
| Task | File(s) |
|------|---------|
| Add parameter | `PluginProcessor.cpp` (constructor) |
| DSP logic | `PluginProcessor.cpp` (processBlock) |
| UI controls | `PluginEditor.cpp` |

"#.to_owned()
}

fn generate_quick_reference(framework: &FrameworkInfo) -> (r: String)
    ensures
        r@ == quick_reference_text(framework.language@),
{
    let lang = framework.language.as_str();
    if crate::text::str_eq(lang, "cpp") || crate::text::str_eq(lang, "c++") {
        generate_cpp_reference()
    } else {
        generate_rust_reference()
    }
}

/// The complete generated guidance file: header and configuration, the
/// on-demand manifest, the inlined basics guide (or the fallback quick
/// reference), the inlined UI guide if any, and the safety reminders last.
pub open spec fn claude_md_text(
    name: Seq<char>,
    template: Seq<char>,
    ui_framework: Seq<char>,
    components: Option<Seq<Seq<char>>>,
    fw_display: Seq<char>,
    fw_language: Seq<char>,
    basics: Option<Seq<char>>,
    ui_guide: Option<Seq<char>>,
) -> Seq<char> {
    header_text(
        name,
        fw_display,
        fw_language,
        template,
        ui_framework,
        components_str_spec(components),
    ) + manifest_text(template, components) + (match basics {
        Some(b) => "---\n\n"@ + frontmatter_stripped(b) + "\n"@,
        None => quick_reference_text(fw_language),
    }) + (match ui_guide {
        Some(u) => "---\n\n"@ + frontmatter_stripped(u) + "\n"@,
        None => Seq::empty(),
    }) + critical_safety_text(fw_language)
}

/// Generate the guidance file with explicit framework information and
/// inlined guides.
pub fn generate_claude_md_with_framework(
    project_name: &str,
    template: &str,
    ui_framework: &str,
    components: Option<&Vec<String>>,
    framework: &FrameworkInfo,
    guides: &InlinedGuides,
) -> (r: String)
    ensures
        r@ == claude_md_text(
            project_name@,
            template@,
            ui_framework@,
            match components {
                Some(c) => Some(c.deep_view()),
                None => None,
            },
            framework.display_name@,
            framework.language@,
            match guides.basics {
                Some(b) => Some(b@),
                None => None,
            },
            match guides.ui_framework {
                Some(u) => Some(u@),
                None => None,
            },
        ),
{
    let mut content = generate_header(project_name, template, ui_framework, components, framework);
    let manifest = generate_guide_manifest(template, components);
    content.append(manifest.as_str());
    match &guides.basics {
        Some(basics) => {
            content.append("---\n\n");
            let stripped = strip_frontmatter(basics.as_str());
            content.append(stripped.as_str());
            content.append("\n");
        },
        None => {
            let fallback = generate_quick_reference(framework);
            content.append(fallback.as_str());
        },
    }
    match &guides.ui_framework {
        Some(ui_guide) => {
            content.append("---\n\n");
            let stripped = strip_frontmatter(ui_guide.as_str());
            content.append(stripped.as_str());
            content.append("\n");
        },
        None => {},
    }
    let safety = generate_critical_safety(framework);
    content.append(safety.as_str());
    proof {
        assert(content@ =~= claude_md_text(
            project_name@,
            template@,
            ui_framework@,
            match components {
                Some(c) => Some(c.deep_view()),
                None => None,
            },
            framework.display_name@,
            framework.language@,
            match guides.basics {
                Some(b) => Some(b@),
                None => None,
            },
            match guides.ui_framework {
                Some(u) => Some(u@),
                None => None,
            },
        ));
    }
    content
}

} // verus!

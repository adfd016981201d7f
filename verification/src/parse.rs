use vstd::prelude::*;

use crate::catalog::CLASSIFIER_COUNT;
use crate::catalog::Classifier;
use crate::rank::lemma_rank_bounds;
use crate::strcmp::str_eq;

verus! {

/// Failure of `Classifier::from_str`: the string equals no classifier tag.
#[derive(Clone, Copy, Debug, PartialEq, Eq, Structural)]
pub struct UnknownTag;

fn parse_development_status(s: &str) -> (r: Option<Classifier>)
    ensures
        match r {
            Some(c) => c.tag() == s@,
            None => forall|c: Classifier| 0 <= #[trigger] c.rank() < 7 ==> c.tag() != s@,
        },
{
    if str_eq(s, "Development Status :: 1 - Planning") {
        return Some(Classifier::DevelopmentStatus__1Planning);
    }
    if str_eq(s, "Development Status :: 2 - Pre-Alpha") {
        return Some(Classifier::DevelopmentStatus__2PreAlpha);
    }
    if str_eq(s, "Development Status :: 3 - Alpha") {
        return Some(Classifier::DevelopmentStatus__3Alpha);
    }
    if str_eq(s, "Development Status :: 4 - Beta") {
        return Some(Classifier::DevelopmentStatus__4Beta);
    }
    if str_eq(s, "Development Status :: 5 - Production/Stable") {
        return Some(Classifier::DevelopmentStatus__5ProductionStable);
    }
    if str_eq(s, "Development Status :: 6 - Mature") {
        return Some(Classifier::DevelopmentStatus__6Mature);
    }
    if str_eq(s, "Development Status :: 7 - Inactive") {
        return Some(Classifier::DevelopmentStatus__7Inactive);
    }
    None
}

fn parse_environment_a(s: &str) -> (r: Option<Classifier>)
    ensures
        match r {
            Some(c) => c.tag() == s@,
            None => forall|c: Classifier| 7 <= #[trigger] c.rank() < 63 ==> c.tag() != s@,
        },
{
    if str_eq(s, "Environment :: Console") {
        return Some(Classifier::Environment__Console);
    }
    if str_eq(s, "Environment :: Console :: Curses") {
        return Some(Classifier::Environment__Console__Curses);
    }
    if str_eq(s, "Environment :: Console :: Framebuffer") {
        return Some(Classifier::Environment__Console__Framebuffer);
    }
    if str_eq(s, "Environment :: Console :: Newt") {
        return Some(Classifier::Environment__Console__Newt);
    }
    if str_eq(s, "Environment :: Console :: svgalib") {
        return Some(Classifier::Environment__Console__svgalib);
    }
    if str_eq(s, "Environment :: GPU") {
        return Some(Classifier::Environment__GPU);
    }
    if str_eq(s, "Environment :: GPU :: NVIDIA CUDA") {
        return Some(Classifier::Environment__GPU__NVIDIACUDA);
    }
    if str_eq(s, "Environment :: GPU :: NVIDIA CUDA :: 1.0") {
        return Some(Classifier::Environment__GPU__NVIDIACUDA__1_0);
    }
    if str_eq(s, "Environment :: GPU :: NVIDIA CUDA :: 1.1") {
        return Some(Classifier::Environment__GPU__NVIDIACUDA__1_1);
    }
    if str_eq(s, "Environment :: GPU :: NVIDIA CUDA :: 10.0") {
        return Some(Classifier::Environment__GPU__NVIDIACUDA__10_0);
    }
    if str_eq(s, "Environment :: GPU :: NVIDIA CUDA :: 10.1") {
        return Some(Classifier::Environment__GPU__NVIDIACUDA__10_1);
    }
    if str_eq(s, "Environment :: GPU :: NVIDIA CUDA :: 10.2") {
        return Some(Classifier::Environment__GPU__NVIDIACUDA__10_2);
    }
    if str_eq(s, "Environment :: GPU :: NVIDIA CUDA :: 11") {
        return Some(Classifier::Environment__GPU__NVIDIACUDA__11);
    }
    if str_eq(s, "Environment :: GPU :: NVIDIA CUDA :: 11.0") {
        return Some(Classifier::Environment__GPU__NVIDIACUDA__11_0);
    }
    if str_eq(s, "Environment :: GPU :: NVIDIA CUDA :: 11.1") {
        return Some(Classifier::Environment__GPU__NVIDIACUDA__11_1);
    }
    if str_eq(s, "Environment :: GPU :: NVIDIA CUDA :: 11.2") {
        return Some(Classifier::Environment__GPU__NVIDIACUDA__11_2);
    }
    if str_eq(s, "Environment :: GPU :: NVIDIA CUDA :: 11.3") {
        return Some(Classifier::Environment__GPU__NVIDIACUDA__11_3);
    }
    if str_eq(s, "Environment :: GPU :: NVIDIA CUDA :: 11.4") {
        return Some(Classifier::Environment__GPU__NVIDIACUDA__11_4);
    }
    if str_eq(s, "Environment :: GPU :: NVIDIA CUDA :: 11.5") {
        return Some(Classifier::Environment__GPU__NVIDIACUDA__11_5);
    }
    if str_eq(s, "Environment :: GPU :: NVIDIA CUDA :: 11.6") {
        return Some(Classifier::Environment__GPU__NVIDIACUDA__11_6);
    }
    if str_eq(s, "Environment :: GPU :: NVIDIA CUDA :: 11.7") {
        return Some(Classifier::Environment__GPU__NVIDIACUDA__11_7);
    }
    if str_eq(s, "Environment :: GPU :: NVIDIA CUDA :: 11.8") {
        return Some(Classifier::Environment__GPU__NVIDIACUDA__11_8);
    }
    if str_eq(s, "Environment :: GPU :: NVIDIA CUDA :: 12") {
        return Some(Classifier::Environment__GPU__NVIDIACUDA__12);
    }
    if str_eq(s, "Environment :: GPU :: NVIDIA CUDA :: 12 :: 12.0") {
        return Some(Classifier::Environment__GPU__NVIDIACUDA__12__12_0);
    }
    if str_eq(s, "Environment :: GPU :: NVIDIA CUDA :: 12 :: 12.1") {
        return Some(Classifier::Environment__GPU__NVIDIACUDA__12__12_1);
    }
    if str_eq(s, "Environment :: GPU :: NVIDIA CUDA :: 12 :: 12.2") {
        return Some(Classifier::Environment__GPU__NVIDIACUDA__12__12_2);
    }
    if str_eq(s, "Environment :: GPU :: NVIDIA CUDA :: 12 :: 12.3") {
        return Some(Classifier::Environment__GPU__NVIDIACUDA__12__12_3);
    }
    if str_eq(s, "Environment :: GPU :: NVIDIA CUDA :: 12 :: 12.4") {
        return Some(Classifier::Environment__GPU__NVIDIACUDA__12__12_4);
    }
    if str_eq(s, "Environment :: GPU :: NVIDIA CUDA :: 12 :: 12.5") {
        return Some(Classifier::Environment__GPU__NVIDIACUDA__12__12_5);
    }
    if str_eq(s, "Environment :: GPU :: NVIDIA CUDA :: 2.0") {
        return Some(Classifier::Environment__GPU__NVIDIACUDA__2_0);
    }
    if str_eq(s, "Environment :: GPU :: NVIDIA CUDA :: 2.1") {
        return Some(Classifier::Environment__GPU__NVIDIACUDA__2_1);
    }
    if str_eq(s, "Environment :: GPU :: NVIDIA CUDA :: 2.2") {
        return Some(Classifier::Environment__GPU__NVIDIACUDA__2_2);
    }
    if str_eq(s, "Environment :: GPU :: NVIDIA CUDA :: 2.3") {
        return Some(Classifier::Environment__GPU__NVIDIACUDA__2_3);
    }
    if str_eq(s, "Environment :: GPU :: NVIDIA CUDA :: 3.0") {
        return Some(Classifier::Environment__GPU__NVIDIACUDA__3_0);
    }
    if str_eq(s, "Environment :: GPU :: NVIDIA CUDA :: 3.1") {
        return Some(Classifier::Environment__GPU__NVIDIACUDA__3_1);
    }
    if str_eq(s, "Environment :: GPU :: NVIDIA CUDA :: 3.2") {
        return Some(Classifier::Environment__GPU__NVIDIACUDA__3_2);
    }
    if str_eq(s, "Environment :: GPU :: NVIDIA CUDA :: 4.0") {
        return Some(Classifier::Environment__GPU__NVIDIACUDA__4_0);
    }
    if str_eq(s, "Environment :: GPU :: NVIDIA CUDA :: 4.1") {
        return Some(Classifier::Environment__GPU__NVIDIACUDA__4_1);
    }
    if str_eq(s, "Environment :: GPU :: NVIDIA CUDA :: 4.2") {
        return Some(Classifier::Environment__GPU__NVIDIACUDA__4_2);
    }
    if str_eq(s, "Environment :: GPU :: NVIDIA CUDA :: 5.0") {
        return Some(Classifier::Environment__GPU__NVIDIACUDA__5_0);
    }
    if str_eq(s, "Environment :: GPU :: NVIDIA CUDA :: 5.5") {
        return Some(Classifier::Environment__GPU__NVIDIACUDA__5_5);
    }
    if str_eq(s, "Environment :: GPU :: NVIDIA CUDA :: 6.0") {
        return Some(Classifier::Environment__GPU__NVIDIACUDA__6_0);
    }
    if str_eq(s, "Environment :: GPU :: NVIDIA CUDA :: 6.5") {
        return Some(Classifier::Environment__GPU__NVIDIACUDA__6_5);
    }
    if str_eq(s, "Environment :: GPU :: NVIDIA CUDA :: 7.0") {
        return Some(Classifier::Environment__GPU__NVIDIACUDA__7_0);
    }
    if str_eq(s, "Environment :: GPU :: NVIDIA CUDA :: 7.5") {
        return Some(Classifier::Environment__GPU__NVIDIACUDA__7_5);
    }
    if str_eq(s, "Environment :: GPU :: NVIDIA CUDA :: 8.0") {
        return Some(Classifier::Environment__GPU__NVIDIACUDA__8_0);
    }
    if str_eq(s, "Environment :: GPU :: NVIDIA CUDA :: 9.0") {
        return Some(Classifier::Environment__GPU__NVIDIACUDA__9_0);
    }
    if str_eq(s, "Environment :: GPU :: NVIDIA CUDA :: 9.1") {
        return Some(Classifier::Environment__GPU__NVIDIACUDA__9_1);
    }
    if str_eq(s, "Environment :: GPU :: NVIDIA CUDA :: 9.2") {
        return Some(Classifier::Environment__GPU__NVIDIACUDA__9_2);
    }
    if str_eq(s, "Environment :: Handhelds/PDA's") {
        return Some(Classifier::Environment__HandheldsPDAs);
    }
    if str_eq(s, "Environment :: MacOS X") {
        return Some(Classifier::Environment__MacOSX);
    }
    if str_eq(s, "Environment :: MacOS X :: Aqua") {
        return Some(Classifier::Environment__MacOSX__Aqua);
    }
    if str_eq(s, "Environment :: MacOS X :: Carbon") {
        return Some(Classifier::Environment__MacOSX__Carbon);
    }
    if str_eq(s, "Environment :: MacOS X :: Cocoa") {
        return Some(Classifier::Environment__MacOSX__Cocoa);
    }
    if str_eq(s, "Environment :: No Input/Output (Daemon)") {
        return Some(Classifier::Environment__NoInputOutputDaemon);
    }
    if str_eq(s, "Environment :: OpenStack") {
        return Some(Classifier::Environment__OpenStack);
    }
    None
}

fn parse_environment_b(s: &str) -> (r: Option<Classifier>)
    ensures
        match r {
            Some(c) => c.tag() == s@,
            None => forall|c: Classifier| 63 <= #[trigger] c.rank() < 78 ==> c.tag() != s@,
        },
{
    if str_eq(s, "Environment :: Other Environment") {
        return Some(Classifier::Environment__OtherEnvironment);
    }
    if str_eq(s, "Environment :: Plugins") {
        return Some(Classifier::Environment__Plugins);
    }
    if str_eq(s, "Environment :: Web Environment") {
        return Some(Classifier::Environment__WebEnvironment);
    }
    if str_eq(s, "Environment :: Web Environment :: Buffet") {
        return Some(Classifier::Environment__WebEnvironment__Buffet);
    }
    if str_eq(s, "Environment :: Web Environment :: Mozilla") {
        return Some(Classifier::Environment__WebEnvironment__Mozilla);
    }
    if str_eq(s, "Environment :: Web Environment :: ToscaWidgets") {
        return Some(Classifier::Environment__WebEnvironment__ToscaWidgets);
    }
    if str_eq(s, "Environment :: WebAssembly") {
        return Some(Classifier::Environment__WebAssembly);
    }
    if str_eq(s, "Environment :: WebAssembly :: Emscripten") {
        return Some(Classifier::Environment__WebAssembly__Emscripten);
    }
    if str_eq(s, "Environment :: WebAssembly :: WASI") {
        return Some(Classifier::Environment__WebAssembly__WASI);
    }
    if str_eq(s, "Environment :: Win32 (MS Windows)") {
        return Some(Classifier::Environment__Win32MSWindows);
    }
    if str_eq(s, "Environment :: X11 Applications") {
        return Some(Classifier::Environment__X11Applications);
    }
    if str_eq(s, "Environment :: X11 Applications :: GTK") {
        return Some(Classifier::Environment__X11Applications__GTK);
    }
    if str_eq(s, "Environment :: X11 Applications :: Gnome") {
        return Some(Classifier::Environment__X11Applications__Gnome);
    }
    if str_eq(s, "Environment :: X11 Applications :: KDE") {
        return Some(Classifier::Environment__X11Applications__KDE);
    }
    if str_eq(s, "Environment :: X11 Applications :: Qt") {
        return Some(Classifier::Environment__X11Applications__Qt);
    }
    None
}

fn parse_framework_a(s: &str) -> (r: Option<Classifier>)
    ensures
        match r {
            Some(c) => c.tag() == s@,
            None => forall|c: Classifier| 78 <= #[trigger] c.rank() < 134 ==> c.tag() != s@,
        },
{
    if str_eq(s, "Framework :: AWS CDK") {
        return Some(Classifier::Framework__AWSCDK);
    }
    if str_eq(s, "Framework :: AWS CDK :: 1") {
        return Some(Classifier::Framework__AWSCDK__1);
    }
    if str_eq(s, "Framework :: AWS CDK :: 2") {
        return Some(Classifier::Framework__AWSCDK__2);
    }
    if str_eq(s, "Framework :: AiiDA") {
        return Some(Classifier::Framework__AiiDA);
    }
    if str_eq(s, "Framework :: Ansible") {
        return Some(Classifier::Framework__Ansible);
    }
    if str_eq(s, "Framework :: AnyIO") {
        return Some(Classifier::Framework__AnyIO);
    }
    if str_eq(s, "Framework :: Apache Airflow") {
        return Some(Classifier::Framework__ApacheAirflow);
    }
    if str_eq(s, "Framework :: Apache Airflow :: Provider") {
        return Some(Classifier::Framework__ApacheAirflow__Provider);
    }
    if str_eq(s, "Framework :: AsyncIO") {
        return Some(Classifier::Framework__AsyncIO);
    }
    if str_eq(s, "Framework :: BEAT") {
        return Some(Classifier::Framework__BEAT);
    }
    if str_eq(s, "Framework :: BFG") {
        return Some(Classifier::Framework__BFG);
    }
    if str_eq(s, "Framework :: Bob") {
        return Some(Classifier::Framework__Bob);
    }
    if str_eq(s, "Framework :: Bottle") {
        return Some(Classifier::Framework__Bottle);
    }
    if str_eq(s, "Framework :: Buildout") {
        return Some(Classifier::Framework__Buildout);
    }
    if str_eq(s, "Framework :: Buildout :: Extension") {
        return Some(Classifier::Framework__Buildout__Extension);
    }
    if str_eq(s, "Framework :: Buildout :: Recipe") {
        return Some(Classifier::Framework__Buildout__Recipe);
    }
    if str_eq(s, "Framework :: CastleCMS") {
        return Some(Classifier::Framework__CastleCMS);
    }
    if str_eq(s, "Framework :: CastleCMS :: Theme") {
        return Some(Classifier::Framework__CastleCMS__Theme);
    }
    if str_eq(s, "Framework :: Celery") {
        return Some(Classifier::Framework__Celery);
    }
    if str_eq(s, "Framework :: Chandler") {
        return Some(Classifier::Framework__Chandler);
    }
    if str_eq(s, "Framework :: CherryPy") {
        return Some(Classifier::Framework__CherryPy);
    }
    if str_eq(s, "Framework :: CubicWeb") {
        return Some(Classifier::Framework__CubicWeb);
    }
    if str_eq(s, "Framework :: Dash") {
        return Some(Classifier::Framework__Dash);
    }
    if str_eq(s, "Framework :: Datasette") {
        return Some(Classifier::Framework__Datasette);
    }
    if str_eq(s, "Framework :: Django") {
        return Some(Classifier::Framework__Django);
    }
    if str_eq(s, "Framework :: Django :: 1") {
        return Some(Classifier::Framework__Django__1);
    }
    if str_eq(s, "Framework :: Django :: 1.10") {
        return Some(Classifier::Framework__Django__1_10);
    }
    if str_eq(s, "Framework :: Django :: 1.11") {
        return Some(Classifier::Framework__Django__1_11);
    }
    if str_eq(s, "Framework :: Django :: 1.4") {
        return Some(Classifier::Framework__Django__1_4);
    }
    if str_eq(s, "Framework :: Django :: 1.5") {
        return Some(Classifier::Framework__Django__1_5);
    }
    if str_eq(s, "Framework :: Django :: 1.6") {
        return Some(Classifier::Framework__Django__1_6);
    }
    if str_eq(s, "Framework :: Django :: 1.7") {
        return Some(Classifier::Framework__Django__1_7);
    }
    if str_eq(s, "Framework :: Django :: 1.8") {
        return Some(Classifier::Framework__Django__1_8);
    }
    if str_eq(s, "Framework :: Django :: 1.9") {
        return Some(Classifier::Framework__Django__1_9);
    }
    if str_eq(s, "Framework :: Django :: 2") {
        return Some(Classifier::Framework__Django__2);
    }
    if str_eq(s, "Framework :: Django :: 2.0") {
        return Some(Classifier::Framework__Django__2_0);
    }
    if str_eq(s, "Framework :: Django :: 2.1") {
        return Some(Classifier::Framework__Django__2_1);
    }
    if str_eq(s, "Framework :: Django :: 2.2") {
        return Some(Classifier::Framework__Django__2_2);
    }
    if str_eq(s, "Framework :: Django :: 3") {
        return Some(Classifier::Framework__Django__3);
    }
    if str_eq(s, "Framework :: Django :: 3.0") {
        return Some(Classifier::Framework__Django__3_0);
    }
    if str_eq(s, "Framework :: Django :: 3.1") {
        return Some(Classifier::Framework__Django__3_1);
    }
    if str_eq(s, "Framework :: Django :: 3.2") {
        return Some(Classifier::Framework__Django__3_2);
    }
    if str_eq(s, "Framework :: Django :: 4") {
        return Some(Classifier::Framework__Django__4);
    }
    if str_eq(s, "Framework :: Django :: 4.0") {
        return Some(Classifier::Framework__Django__4_0);
    }
    if str_eq(s, "Framework :: Django :: 4.1") {
        return Some(Classifier::Framework__Django__4_1);
    }
    if str_eq(s, "Framework :: Django :: 4.2") {
        return Some(Classifier::Framework__Django__4_2);
    }
    if str_eq(s, "Framework :: Django :: 5") {
        return Some(Classifier::Framework__Django__5);
    }
    if str_eq(s, "Framework :: Django :: 5.0") {
        return Some(Classifier::Framework__Django__5_0);
    }
    if str_eq(s, "Framework :: Django :: 5.1") {
        return Some(Classifier::Framework__Django__5_1);
    }
    if str_eq(s, "Framework :: Django :: 5.2") {
        return Some(Classifier::Framework__Django__5_2);
    }
    if str_eq(s, "Framework :: Django CMS") {
        return Some(Classifier::Framework__DjangoCMS);
    }
    if str_eq(s, "Framework :: Django CMS :: 3.10") {
        return Some(Classifier::Framework__DjangoCMS__3_10);
    }
    if str_eq(s, "Framework :: Django CMS :: 3.11") {
        return Some(Classifier::Framework__DjangoCMS__3_11);
    }
    if str_eq(s, "Framework :: Django CMS :: 3.4") {
        return Some(Classifier::Framework__DjangoCMS__3_4);
    }
    if str_eq(s, "Framework :: Django CMS :: 3.5") {
        return Some(Classifier::Framework__DjangoCMS__3_5);
    }
    if str_eq(s, "Framework :: Django CMS :: 3.6") {
        return Some(Classifier::Framework__DjangoCMS__3_6);
    }
    None
}

fn parse_framework_b(s: &str) -> (r: Option<Classifier>)
    ensures
        match r {
            Some(c) => c.tag() == s@,
            None => forall|c: Classifier| 134 <= #[trigger] c.rank() < 190 ==> c.tag() != s@,
        },
{
    if str_eq(s, "Framework :: Django CMS :: 3.7") {
        return Some(Classifier::Framework__DjangoCMS__3_7);
    }
    if str_eq(s, "Framework :: Django CMS :: 3.8") {
        return Some(Classifier::Framework__DjangoCMS__3_8);
    }
    if str_eq(s, "Framework :: Django CMS :: 3.9") {
        return Some(Classifier::Framework__DjangoCMS__3_9);
    }
    if str_eq(s, "Framework :: Django CMS :: 4.0") {
        return Some(Classifier::Framework__DjangoCMS__4_0);
    }
    if str_eq(s, "Framework :: Django CMS :: 4.1") {
        return Some(Classifier::Framework__DjangoCMS__4_1);
    }
    if str_eq(s, "Framework :: FastAPI") {
        return Some(Classifier::Framework__FastAPI);
    }
    if str_eq(s, "Framework :: Flake8") {
        return Some(Classifier::Framework__Flake8);
    }
    if str_eq(s, "Framework :: Flask") {
        return Some(Classifier::Framework__Flask);
    }
    if str_eq(s, "Framework :: Hatch") {
        return Some(Classifier::Framework__Hatch);
    }
    if str_eq(s, "Framework :: Hypothesis") {
        return Some(Classifier::Framework__Hypothesis);
    }
    if str_eq(s, "Framework :: IDLE") {
        return Some(Classifier::Framework__IDLE);
    }
    if str_eq(s, "Framework :: IPython") {
        return Some(Classifier::Framework__IPython);
    }
    if str_eq(s, "Framework :: Jupyter") {
        return Some(Classifier::Framework__Jupyter);
    }
    if str_eq(s, "Framework :: Jupyter :: JupyterLab") {
        return Some(Classifier::Framework__Jupyter__JupyterLab);
    }
    if str_eq(s, "Framework :: Jupyter :: JupyterLab :: 1") {
        return Some(Classifier::Framework__Jupyter__JupyterLab__1);
    }
    if str_eq(s, "Framework :: Jupyter :: JupyterLab :: 2") {
        return Some(Classifier::Framework__Jupyter__JupyterLab__2);
    }
    if str_eq(s, "Framework :: Jupyter :: JupyterLab :: 3") {
        return Some(Classifier::Framework__Jupyter__JupyterLab__3);
    }
    if str_eq(s, "Framework :: Jupyter :: JupyterLab :: 4") {
        return Some(Classifier::Framework__Jupyter__JupyterLab__4);
    }
    if str_eq(s, "Framework :: Jupyter :: JupyterLab :: Extensions") {
        return Some(Classifier::Framework__Jupyter__JupyterLab__Extensions);
    }
    if str_eq(s, "Framework :: Jupyter :: JupyterLab :: Extensions :: Mime Renderers") {
        return Some(Classifier::Framework__Jupyter__JupyterLab__Extensions__MimeRenderers);
    }
    if str_eq(s, "Framework :: Jupyter :: JupyterLab :: Extensions :: Prebuilt") {
        return Some(Classifier::Framework__Jupyter__JupyterLab__Extensions__Prebuilt);
    }
    if str_eq(s, "Framework :: Jupyter :: JupyterLab :: Extensions :: Themes") {
        return Some(Classifier::Framework__Jupyter__JupyterLab__Extensions__Themes);
    }
    if str_eq(s, "Framework :: Kedro") {
        return Some(Classifier::Framework__Kedro);
    }
    if str_eq(s, "Framework :: Lektor") {
        return Some(Classifier::Framework__Lektor);
    }
    if str_eq(s, "Framework :: Masonite") {
        return Some(Classifier::Framework__Masonite);
    }
    if str_eq(s, "Framework :: Matplotlib") {
        return Some(Classifier::Framework__Matplotlib);
    }
    if str_eq(s, "Framework :: MkDocs") {
        return Some(Classifier::Framework__MkDocs);
    }
    if str_eq(s, "Framework :: Nengo") {
        return Some(Classifier::Framework__Nengo);
    }
    if str_eq(s, "Framework :: Odoo") {
        return Some(Classifier::Framework__Odoo);
    }
    if str_eq(s, "Framework :: Odoo :: 10.0") {
        return Some(Classifier::Framework__Odoo__10_0);
    }
    if str_eq(s, "Framework :: Odoo :: 11.0") {
        return Some(Classifier::Framework__Odoo__11_0);
    }
    if str_eq(s, "Framework :: Odoo :: 12.0") {
        return Some(Classifier::Framework__Odoo__12_0);
    }
    if str_eq(s, "Framework :: Odoo :: 13.0") {
        return Some(Classifier::Framework__Odoo__13_0);
    }
    if str_eq(s, "Framework :: Odoo :: 14.0") {
        return Some(Classifier::Framework__Odoo__14_0);
    }
    if str_eq(s, "Framework :: Odoo :: 15.0") {
        return Some(Classifier::Framework__Odoo__15_0);
    }
    if str_eq(s, "Framework :: Odoo :: 16.0") {
        return Some(Classifier::Framework__Odoo__16_0);
    }
    if str_eq(s, "Framework :: Odoo :: 17.0") {
        return Some(Classifier::Framework__Odoo__17_0);
    }
    if str_eq(s, "Framework :: Odoo :: 18.0") {
        return Some(Classifier::Framework__Odoo__18_0);
    }
    if str_eq(s, "Framework :: Odoo :: 8.0") {
        return Some(Classifier::Framework__Odoo__8_0);
    }
    if str_eq(s, "Framework :: Odoo :: 9.0") {
        return Some(Classifier::Framework__Odoo__9_0);
    }
    if str_eq(s, "Framework :: OpenTelemetry") {
        return Some(Classifier::Framework__OpenTelemetry);
    }
    if str_eq(s, "Framework :: OpenTelemetry :: Distros") {
        return Some(Classifier::Framework__OpenTelemetry__Distros);
    }
    if str_eq(s, "Framework :: OpenTelemetry :: Exporters") {
        return Some(Classifier::Framework__OpenTelemetry__Exporters);
    }
    if str_eq(s, "Framework :: OpenTelemetry :: Instrumentations") {
        return Some(Classifier::Framework__OpenTelemetry__Instrumentations);
    }
    if str_eq(s, "Framework :: Opps") {
        return Some(Classifier::Framework__Opps);
    }
    if str_eq(s, "Framework :: Paste") {
        return Some(Classifier::Framework__Paste);
    }
    if str_eq(s, "Framework :: Pelican") {
        return Some(Classifier::Framework__Pelican);
    }
    if str_eq(s, "Framework :: Pelican :: Plugins") {
        return Some(Classifier::Framework__Pelican__Plugins);
    }
    if str_eq(s, "Framework :: Pelican :: Themes") {
        return Some(Classifier::Framework__Pelican__Themes);
    }
    if str_eq(s, "Framework :: Plone") {
        return Some(Classifier::Framework__Plone);
    }
    if str_eq(s, "Framework :: Plone :: 3.2") {
        return Some(Classifier::Framework__Plone__3_2);
    }
    if str_eq(s, "Framework :: Plone :: 3.3") {
        return Some(Classifier::Framework__Plone__3_3);
    }
    if str_eq(s, "Framework :: Plone :: 4.0") {
        return Some(Classifier::Framework__Plone__4_0);
    }
    if str_eq(s, "Framework :: Plone :: 4.1") {
        return Some(Classifier::Framework__Plone__4_1);
    }
    if str_eq(s, "Framework :: Plone :: 4.2") {
        return Some(Classifier::Framework__Plone__4_2);
    }
    if str_eq(s, "Framework :: Plone :: 4.3") {
        return Some(Classifier::Framework__Plone__4_3);
    }
    None
}

fn parse_framework_c(s: &str) -> (r: Option<Classifier>)
    ensures
        match r {
            Some(c) => c.tag() == s@,
            None => forall|c: Classifier| 190 <= #[trigger] c.rank() < 246 ==> c.tag() != s@,
        },
{
    if str_eq(s, "Framework :: Plone :: 5.0") {
        return Some(Classifier::Framework__Plone__5_0);
    }
    if str_eq(s, "Framework :: Plone :: 5.1") {
        return Some(Classifier::Framework__Plone__5_1);
    }
    if str_eq(s, "Framework :: Plone :: 5.2") {
        return Some(Classifier::Framework__Plone__5_2);
    }
    if str_eq(s, "Framework :: Plone :: 5.3") {
        return Some(Classifier::Framework__Plone__5_3);
    }
    if str_eq(s, "Framework :: Plone :: 6.0") {
        return Some(Classifier::Framework__Plone__6_0);
    }
    if str_eq(s, "Framework :: Plone :: 6.1") {
        return Some(Classifier::Framework__Plone__6_1);
    }
    if str_eq(s, "Framework :: Plone :: Addon") {
        return Some(Classifier::Framework__Plone__Addon);
    }
    if str_eq(s, "Framework :: Plone :: Core") {
        return Some(Classifier::Framework__Plone__Core);
    }
    if str_eq(s, "Framework :: Plone :: Distribution") {
        return Some(Classifier::Framework__Plone__Distribution);
    }
    if str_eq(s, "Framework :: Plone :: Theme") {
        return Some(Classifier::Framework__Plone__Theme);
    }
    if str_eq(s, "Framework :: PySimpleGUI") {
        return Some(Classifier::Framework__PySimpleGUI);
    }
    if str_eq(s, "Framework :: PySimpleGUI :: 4") {
        return Some(Classifier::Framework__PySimpleGUI__4);
    }
    if str_eq(s, "Framework :: PySimpleGUI :: 5") {
        return Some(Classifier::Framework__PySimpleGUI__5);
    }
    if str_eq(s, "Framework :: Pycsou") {
        return Some(Classifier::Framework__Pycsou);
    }
    if str_eq(s, "Framework :: Pydantic") {
        return Some(Classifier::Framework__Pydantic);
    }
    if str_eq(s, "Framework :: Pydantic :: 1") {
        return Some(Classifier::Framework__Pydantic__1);
    }
    if str_eq(s, "Framework :: Pydantic :: 2") {
        return Some(Classifier::Framework__Pydantic__2);
    }
    if str_eq(s, "Framework :: Pylons") {
        return Some(Classifier::Framework__Pylons);
    }
    if str_eq(s, "Framework :: Pyramid") {
        return Some(Classifier::Framework__Pyramid);
    }
    if str_eq(s, "Framework :: Pytest") {
        return Some(Classifier::Framework__Pytest);
    }
    if str_eq(s, "Framework :: Review Board") {
        return Some(Classifier::Framework__ReviewBoard);
    }
    if str_eq(s, "Framework :: Robot Framework") {
        return Some(Classifier::Framework__RobotFramework);
    }
    if str_eq(s, "Framework :: Robot Framework :: Library") {
        return Some(Classifier::Framework__RobotFramework__Library);
    }
    if str_eq(s, "Framework :: Robot Framework :: Tool") {
        return Some(Classifier::Framework__RobotFramework__Tool);
    }
    if str_eq(s, "Framework :: Scrapy") {
        return Some(Classifier::Framework__Scrapy);
    }
    if str_eq(s, "Framework :: Setuptools Plugin") {
        return Some(Classifier::Framework__SetuptoolsPlugin);
    }
    if str_eq(s, "Framework :: Sphinx") {
        return Some(Classifier::Framework__Sphinx);
    }
    if str_eq(s, "Framework :: Sphinx :: Domain") {
        return Some(Classifier::Framework__Sphinx__Domain);
    }
    if str_eq(s, "Framework :: Sphinx :: Extension") {
        return Some(Classifier::Framework__Sphinx__Extension);
    }
    if str_eq(s, "Framework :: Sphinx :: Theme") {
        return Some(Classifier::Framework__Sphinx__Theme);
    }
    if str_eq(s, "Framework :: Trac") {
        return Some(Classifier::Framework__Trac);
    }
    if str_eq(s, "Framework :: Trio") {
        return Some(Classifier::Framework__Trio);
    }
    if str_eq(s, "Framework :: Tryton") {
        return Some(Classifier::Framework__Tryton);
    }
    if str_eq(s, "Framework :: TurboGears") {
        return Some(Classifier::Framework__TurboGears);
    }
    if str_eq(s, "Framework :: TurboGears :: Applications") {
        return Some(Classifier::Framework__TurboGears__Applications);
    }
    if str_eq(s, "Framework :: TurboGears :: Widgets") {
        return Some(Classifier::Framework__TurboGears__Widgets);
    }
    if str_eq(s, "Framework :: Twisted") {
        return Some(Classifier::Framework__Twisted);
    }
    if str_eq(s, "Framework :: Wagtail") {
        return Some(Classifier::Framework__Wagtail);
    }
    if str_eq(s, "Framework :: Wagtail :: 1") {
        return Some(Classifier::Framework__Wagtail__1);
    }
    if str_eq(s, "Framework :: Wagtail :: 2") {
        return Some(Classifier::Framework__Wagtail__2);
    }
    if str_eq(s, "Framework :: Wagtail :: 3") {
        return Some(Classifier::Framework__Wagtail__3);
    }
    if str_eq(s, "Framework :: Wagtail :: 4") {
        return Some(Classifier::Framework__Wagtail__4);
    }
    if str_eq(s, "Framework :: Wagtail :: 5") {
        return Some(Classifier::Framework__Wagtail__5);
    }
    if str_eq(s, "Framework :: Wagtail :: 6") {
        return Some(Classifier::Framework__Wagtail__6);
    }
    if str_eq(s, "Framework :: ZODB") {
        return Some(Classifier::Framework__ZODB);
    }
    if str_eq(s, "Framework :: Zope") {
        return Some(Classifier::Framework__Zope);
    }
    if str_eq(s, "Framework :: Zope :: 2") {
        return Some(Classifier::Framework__Zope__2);
    }
    if str_eq(s, "Framework :: Zope :: 3") {
        return Some(Classifier::Framework__Zope__3);
    }
    if str_eq(s, "Framework :: Zope :: 4") {
        return Some(Classifier::Framework__Zope__4);
    }
    if str_eq(s, "Framework :: Zope :: 5") {
        return Some(Classifier::Framework__Zope__5);
    }
    if str_eq(s, "Framework :: Zope2") {
        return Some(Classifier::Framework__Zope2);
    }
    if str_eq(s, "Framework :: Zope3") {
        return Some(Classifier::Framework__Zope3);
    }
    if str_eq(s, "Framework :: aiohttp") {
        return Some(Classifier::Framework__aiohttp);
    }
    if str_eq(s, "Framework :: cocotb") {
        return Some(Classifier::Framework__cocotb);
    }
    if str_eq(s, "Framework :: napari") {
        return Some(Classifier::Framework__napari);
    }
    if str_eq(s, "Framework :: tox") {
        return Some(Classifier::Framework__tox);
    }
    None
}

fn parse_intended_audience(s: &str) -> (r: Option<Classifier>)
    ensures
        match r {
            Some(c) => c.tag() == s@,
            None => forall|c: Classifier| 246 <= #[trigger] c.rank() < 260 ==> c.tag() != s@,
        },
{
    if str_eq(s, "Intended Audience :: Customer Service") {
        return Some(Classifier::IntendedAudience__CustomerService);
    }
    if str_eq(s, "Intended Audience :: Developers") {
        return Some(Classifier::IntendedAudience__Developers);
    }
    if str_eq(s, "Intended Audience :: Education") {
        return Some(Classifier::IntendedAudience__Education);
    }
    if str_eq(s, "Intended Audience :: End Users/Desktop") {
        return Some(Classifier::IntendedAudience__EndUsersDesktop);
    }
    if str_eq(s, "Intended Audience :: Financial and Insurance Industry") {
        return Some(Classifier::IntendedAudience__FinancialandInsuranceIndustry);
    }
    if str_eq(s, "Intended Audience :: Healthcare Industry") {
        return Some(Classifier::IntendedAudience__HealthcareIndustry);
    }
    if str_eq(s, "Intended Audience :: Information Technology") {
        return Some(Classifier::IntendedAudience__InformationTechnology);
    }
    if str_eq(s, "Intended Audience :: Legal Industry") {
        return Some(Classifier::IntendedAudience__LegalIndustry);
    }
    if str_eq(s, "Intended Audience :: Manufacturing") {
        return Some(Classifier::IntendedAudience__Manufacturing);
    }
    if str_eq(s, "Intended Audience :: Other Audience") {
        return Some(Classifier::IntendedAudience__OtherAudience);
    }
    if str_eq(s, "Intended Audience :: Religion") {
        return Some(Classifier::IntendedAudience__Religion);
    }
    if str_eq(s, "Intended Audience :: Science/Research") {
        return Some(Classifier::IntendedAudience__ScienceResearch);
    }
    if str_eq(s, "Intended Audience :: System Administrators") {
        return Some(Classifier::IntendedAudience__SystemAdministrators);
    }
    if str_eq(s, "Intended Audience :: Telecommunications Industry") {
        return Some(Classifier::IntendedAudience__TelecommunicationsIndustry);
    }
    None
}

fn parse_license_a(s: &str) -> (r: Option<Classifier>)
    ensures
        match r {
            Some(c) => c.tag() == s@,
            None => forall|c: Classifier| 260 <= #[trigger] c.rank() < 316 ==> c.tag() != s@,
        },
{
    if str_eq(s, "License :: Aladdin Free Public License (AFPL)") {
        return Some(Classifier::License__AladdinFreePublicLicenseAFPL);
    }
    if str_eq(s, "License :: CC0 1.0 Universal (CC0 1.0) Public Domain Dedication") {
        return Some(Classifier::License__CC01_0UniversalCC01_0PublicDomainDedication);
    }
    if str_eq(s, "License :: CeCILL-B Free Software License Agreement (CECILL-B)") {
        return Some(Classifier::License__CeCILLBFreeSoftwareLicenseAgreementCECILLB);
    }
    if str_eq(s, "License :: CeCILL-C Free Software License Agreement (CECILL-C)") {
        return Some(Classifier::License__CeCILLCFreeSoftwareLicenseAgreementCECILLC);
    }
    if str_eq(s, "License :: DFSG approved") {
        return Some(Classifier::License__DFSGapproved);
    }
    if str_eq(s, "License :: Eiffel Forum License (EFL)") {
        return Some(Classifier::License__EiffelForumLicenseEFL);
    }
    if str_eq(s, "License :: Free For Educational Use") {
        return Some(Classifier::License__FreeForEducationalUse);
    }
    if str_eq(s, "License :: Free For Home Use") {
        return Some(Classifier::License__FreeForHomeUse);
    }
    if str_eq(s, "License :: Free To Use But Restricted") {
        return Some(Classifier::License__FreeToUseButRestricted);
    }
    if str_eq(s, "License :: Free for non-commercial use") {
        return Some(Classifier::License__Freefornoncommercialuse);
    }
    if str_eq(s, "License :: Freely Distributable") {
        return Some(Classifier::License__FreelyDistributable);
    }
    if str_eq(s, "License :: Freeware") {
        return Some(Classifier::License__Freeware);
    }
    if str_eq(s, "License :: GUST Font License 1.0") {
        return Some(Classifier::License__GUSTFontLicense1_0);
    }
    if str_eq(s, "License :: GUST Font License 2006-09-30") {
        return Some(Classifier::License__GUSTFontLicense20060930);
    }
    if str_eq(s, "License :: Netscape Public License (NPL)") {
        return Some(Classifier::License__NetscapePublicLicenseNPL);
    }
    if str_eq(s, "License :: Nokia Open Source License (NOKOS)") {
        return Some(Classifier::License__NokiaOpenSourceLicenseNOKOS);
    }
    if str_eq(s, "License :: OSI Approved") {
        return Some(Classifier::License__OSIApproved);
    }
    if str_eq(s, "License :: OSI Approved :: Academic Free License (AFL)") {
        return Some(Classifier::License__OSIApproved__AcademicFreeLicenseAFL);
    }
    if str_eq(s, "License :: OSI Approved :: Apache Software License") {
        return Some(Classifier::License__OSIApproved__ApacheSoftwareLicense);
    }
    if str_eq(s, "License :: OSI Approved :: Apple Public Source License") {
        return Some(Classifier::License__OSIApproved__ApplePublicSourceLicense);
    }
    if str_eq(s, "License :: OSI Approved :: Artistic License") {
        return Some(Classifier::License__OSIApproved__ArtisticLicense);
    }
    if str_eq(s, "License :: OSI Approved :: Attribution Assurance License") {
        return Some(Classifier::License__OSIApproved__AttributionAssuranceLicense);
    }
    if str_eq(s, "License :: OSI Approved :: BSD License") {
        return Some(Classifier::License__OSIApproved__BSDLicense);
    }
    if str_eq(s, "License :: OSI Approved :: Blue Oak Model License (BlueOak-1.0.0)") {
        return Some(Classifier::License__OSIApproved__BlueOakModelLicenseBlueOak1_0_0);
    }
    if str_eq(s, "License :: OSI Approved :: Boost Software License 1.0 (BSL-1.0)") {
        return Some(Classifier::License__OSIApproved__BoostSoftwareLicense1_0BSL1_0);
    }
    if str_eq(s, "License :: OSI Approved :: CEA CNRS Inria Logiciel Libre License, version 2.1 (CeCILL-2.1)") {
        return Some(Classifier::License__OSIApproved__CEACNRSInriaLogicielLibreLicense);
    }
    if str_eq(s, "License :: OSI Approved :: CMU License (MIT-CMU)") {
        return Some(Classifier::License__OSIApproved__CMULicenseMITCMU);
    }
    if str_eq(s, "License :: OSI Approved :: Common Development and Distribution License 1.0 (CDDL-1.0)") {
        return Some(Classifier::License__OSIApproved__CommonDevelopmentandDistributionLicense1_0CDDL1_0);
    }
    if str_eq(s, "License :: OSI Approved :: Common Public License") {
        return Some(Classifier::License__OSIApproved__CommonPublicLicense);
    }
    if str_eq(s, "License :: OSI Approved :: Eclipse Public License 1.0 (EPL-1.0)") {
        return Some(Classifier::License__OSIApproved__EclipsePublicLicense1_0EPL1_0);
    }
    if str_eq(s, "License :: OSI Approved :: Eclipse Public License 2.0 (EPL-2.0)") {
        return Some(Classifier::License__OSIApproved__EclipsePublicLicense2_0EPL2_0);
    }
    if str_eq(s, "License :: OSI Approved :: Educational Community License, Version 2.0 (ECL-2.0)") {
        return Some(Classifier::License__OSIApproved__EducationalCommunityLicense);
    }
    if str_eq(s, "License :: OSI Approved :: Eiffel Forum License") {
        return Some(Classifier::License__OSIApproved__EiffelForumLicense);
    }
    if str_eq(s, "License :: OSI Approved :: European Union Public Licence 1.0 (EUPL 1.0)") {
        return Some(Classifier::License__OSIApproved__EuropeanUnionPublicLicence1_0EUPL1_0);
    }
    if str_eq(s, "License :: OSI Approved :: European Union Public Licence 1.1 (EUPL 1.1)") {
        return Some(Classifier::License__OSIApproved__EuropeanUnionPublicLicence1_1EUPL1_1);
    }
    if str_eq(s, "License :: OSI Approved :: European Union Public Licence 1.2 (EUPL 1.2)") {
        return Some(Classifier::License__OSIApproved__EuropeanUnionPublicLicence1_2EUPL1_2);
    }
    if str_eq(s, "License :: OSI Approved :: GNU Affero General Public License v3") {
        return Some(Classifier::License__OSIApproved__GNUAfferoGeneralPublicLicensev3);
    }
    if str_eq(s, "License :: OSI Approved :: GNU Affero General Public License v3 or later (AGPLv3+)") {
        return Some(Classifier::License__OSIApproved__GNUAfferoGeneralPublicLicensev3orlaterAGPLv3plus);
    }
    if str_eq(s, "License :: OSI Approved :: GNU Free Documentation License (FDL)") {
        return Some(Classifier::License__OSIApproved__GNUFreeDocumentationLicenseFDL);
    }
    if str_eq(s, "License :: OSI Approved :: GNU General Public License (GPL)") {
        return Some(Classifier::License__OSIApproved__GNUGeneralPublicLicenseGPL);
    }
    if str_eq(s, "License :: OSI Approved :: GNU General Public License v2 (GPLv2)") {
        return Some(Classifier::License__OSIApproved__GNUGeneralPublicLicensev2GPLv2);
    }
    if str_eq(s, "License :: OSI Approved :: GNU General Public License v2 or later (GPLv2+)") {
        return Some(Classifier::License__OSIApproved__GNUGeneralPublicLicensev2orlaterGPLv2plus);
    }
    if str_eq(s, "License :: OSI Approved :: GNU General Public License v3 (GPLv3)") {
        return Some(Classifier::License__OSIApproved__GNUGeneralPublicLicensev3GPLv3);
    }
    if str_eq(s, "License :: OSI Approved :: GNU General Public License v3 or later (GPLv3+)") {
        return Some(Classifier::License__OSIApproved__GNUGeneralPublicLicensev3orlaterGPLv3plus);
    }
    if str_eq(s, "License :: OSI Approved :: GNU Lesser General Public License v2 (LGPLv2)") {
        return Some(Classifier::License__OSIApproved__GNULesserGeneralPublicLicensev2LGPLv2);
    }
    if str_eq(s, "License :: OSI Approved :: GNU Lesser General Public License v2 or later (LGPLv2+)") {
        return Some(Classifier::License__OSIApproved__GNULesserGeneralPublicLicensev2orlaterLGPLv2plus);
    }
    if str_eq(s, "License :: OSI Approved :: GNU Lesser General Public License v3 (LGPLv3)") {
        return Some(Classifier::License__OSIApproved__GNULesserGeneralPublicLicensev3LGPLv3);
    }
    if str_eq(s, "License :: OSI Approved :: GNU Lesser General Public License v3 or later (LGPLv3+)") {
        return Some(Classifier::License__OSIApproved__GNULesserGeneralPublicLicensev3orlaterLGPLv3plus);
    }
    if str_eq(s, "License :: OSI Approved :: GNU Library or Lesser General Public License (LGPL)") {
        return Some(Classifier::License__OSIApproved__GNULibraryorLesserGeneralPublicLicenseLGPL);
    }
    if str_eq(s, "License :: OSI Approved :: Historical Permission Notice and Disclaimer (HPND)") {
        return Some(Classifier::License__OSIApproved__HistoricalPermissionNoticeandDisclaimerHPND);
    }
    if str_eq(s, "License :: OSI Approved :: IBM Public License") {
        return Some(Classifier::License__OSIApproved__IBMPublicLicense);
    }
    if str_eq(s, "License :: OSI Approved :: ISC License (ISCL)") {
        return Some(Classifier::License__OSIApproved__ISCLicenseISCL);
    }
    if str_eq(s, "License :: OSI Approved :: Intel Open Source License") {
        return Some(Classifier::License__OSIApproved__IntelOpenSourceLicense);
    }
    if str_eq(s, "License :: OSI Approved :: Jabber Open Source License") {
        return Some(Classifier::License__OSIApproved__JabberOpenSourceLicense);
    }
    if str_eq(s, "License :: OSI Approved :: MIT License") {
        return Some(Classifier::License__OSIApproved__MITLicense);
    }
    if str_eq(s, "License :: OSI Approved :: MIT No Attribution License (MIT-0)") {
        return Some(Classifier::License__OSIApproved__MITNoAttributionLicenseMIT0);
    }
    None
}

fn parse_license_b(s: &str) -> (r: Option<Classifier>)
    ensures
        match r {
            Some(c) => c.tag() == s@,
            None => forall|c: Classifier| 316 <= #[trigger] c.rank() < 349 ==> c.tag() != s@,
        },
{
    if str_eq(s, "License :: OSI Approved :: MITRE Collaborative Virtual Workspace License (CVW)") {
        return Some(Classifier::License__OSIApproved__MITRECollaborativeVirtualWorkspaceLicenseCVW);
    }
    if str_eq(s, "License :: OSI Approved :: MirOS License (MirOS)") {
        return Some(Classifier::License__OSIApproved__MirOSLicenseMirOS);
    }
    if str_eq(s, "License :: OSI Approved :: Motosoto License") {
        return Some(Classifier::License__OSIApproved__MotosotoLicense);
    }
    if str_eq(s, "License :: OSI Approved :: Mozilla Public License 1.0 (MPL)") {
        return Some(Classifier::License__OSIApproved__MozillaPublicLicense1_0MPL);
    }
    if str_eq(s, "License :: OSI Approved :: Mozilla Public License 1.1 (MPL 1.1)") {
        return Some(Classifier::License__OSIApproved__MozillaPublicLicense1_1MPL1_1);
    }
    if str_eq(s, "License :: OSI Approved :: Mozilla Public License 2.0 (MPL 2.0)") {
        return Some(Classifier::License__OSIApproved__MozillaPublicLicense2_0MPL2_0);
    }
    if str_eq(s, "License :: OSI Approved :: Mulan Permissive Software License v2 (MulanPSL-2.0)") {
        return Some(Classifier::License__OSIApproved__MulanPermissiveSoftwareLicensev2MulanPSL2_0);
    }
    if str_eq(s, "License :: OSI Approved :: NASA Open Source Agreement v1.3 (NASA-1.3)") {
        return Some(Classifier::License__OSIApproved__NASAOpenSourceAgreementv1_3NASA1_3);
    }
    if str_eq(s, "License :: OSI Approved :: Nethack General Public License") {
        return Some(Classifier::License__OSIApproved__NethackGeneralPublicLicense);
    }
    if str_eq(s, "License :: OSI Approved :: Nokia Open Source License") {
        return Some(Classifier::License__OSIApproved__NokiaOpenSourceLicense);
    }
    if str_eq(s, "License :: OSI Approved :: Open Group Test Suite License") {
        return Some(Classifier::License__OSIApproved__OpenGroupTestSuiteLicense);
    }
    if str_eq(s, "License :: OSI Approved :: Open Software License 3.0 (OSL-3.0)") {
        return Some(Classifier::License__OSIApproved__OpenSoftwareLicense3_0OSL3_0);
    }
    if str_eq(s, "License :: OSI Approved :: PostgreSQL License") {
        return Some(Classifier::License__OSIApproved__PostgreSQLLicense);
    }
    if str_eq(s, "License :: OSI Approved :: Python License (CNRI Python License)") {
        return Some(Classifier::License__OSIApproved__PythonLicenseCNRIPythonLicense);
    }
    if str_eq(s, "License :: OSI Approved :: Python Software Foundation License") {
        return Some(Classifier::License__OSIApproved__PythonSoftwareFoundationLicense);
    }
    if str_eq(s, "License :: OSI Approved :: Qt Public License (QPL)") {
        return Some(Classifier::License__OSIApproved__QtPublicLicenseQPL);
    }
    if str_eq(s, "License :: OSI Approved :: Ricoh Source Code Public License") {
        return Some(Classifier::License__OSIApproved__RicohSourceCodePublicLicense);
    }
    if str_eq(s, "License :: OSI Approved :: SIL Open Font License 1.1 (OFL-1.1)") {
        return Some(Classifier::License__OSIApproved__SILOpenFontLicense1_1OFL1_1);
    }
    if str_eq(s, "License :: OSI Approved :: Sleepycat License") {
        return Some(Classifier::License__OSIApproved__SleepycatLicense);
    }
    if str_eq(s, "License :: OSI Approved :: Sun Industry Standards Source License (SISSL)") {
        return Some(Classifier::License__OSIApproved__SunIndustryStandardsSourceLicenseSISSL);
    }
    if str_eq(s, "License :: OSI Approved :: Sun Public License") {
        return Some(Classifier::License__OSIApproved__SunPublicLicense);
    }
    if str_eq(s, "License :: OSI Approved :: The Unlicense (Unlicense)") {
        return Some(Classifier::License__OSIApproved__TheUnlicenseUnlicense);
    }
    if str_eq(s, "License :: OSI Approved :: Universal Permissive License (UPL)") {
        return Some(Classifier::License__OSIApproved__UniversalPermissiveLicenseUPL);
    }
    if str_eq(s, "License :: OSI Approved :: University of Illinois/NCSA Open Source License") {
        return Some(Classifier::License__OSIApproved__UniversityofIllinoisNCSAOpenSourceLicense);
    }
    if str_eq(s, "License :: OSI Approved :: Vovida Software License 1.0") {
        return Some(Classifier::License__OSIApproved__VovidaSoftwareLicense1_0);
    }
    if str_eq(s, "License :: OSI Approved :: W3C License") {
        return Some(Classifier::License__OSIApproved__W3CLicense);
    }
    if str_eq(s, "License :: OSI Approved :: X.Net License") {
        return Some(Classifier::License__OSIApproved__X_NetLicense);
    }
    if str_eq(s, "License :: OSI Approved :: Zero-Clause BSD (0BSD)") {
        return Some(Classifier::License__OSIApproved__ZeroClauseBSD0BSD);
    }
    if str_eq(s, "License :: OSI Approved :: Zope Public License") {
        return Some(Classifier::License__OSIApproved__ZopePublicLicense);
    }
    if str_eq(s, "License :: OSI Approved :: zlib/libpng License") {
        return Some(Classifier::License__OSIApproved__zliblibpngLicense);
    }
    if str_eq(s, "License :: Other/Proprietary License") {
        return Some(Classifier::License__OtherProprietaryLicense);
    }
    if str_eq(s, "License :: Public Domain") {
        return Some(Classifier::License__PublicDomain);
    }
    if str_eq(s, "License :: Repoze Public License") {
        return Some(Classifier::License__RepozePublicLicense);
    }
    None
}

fn parse_natural_language_a(s: &str) -> (r: Option<Classifier>)
    ensures
        match r {
            Some(c) => c.tag() == s@,
            None => forall|c: Classifier| 349 <= #[trigger] c.rank() < 405 ==> c.tag() != s@,
        },
{
    if str_eq(s, "Natural Language :: Afrikaans") {
        return Some(Classifier::NaturalLanguage__Afrikaans);
    }
    if str_eq(s, "Natural Language :: Arabic") {
        return Some(Classifier::NaturalLanguage__Arabic);
    }
    if str_eq(s, "Natural Language :: Basque") {
        return Some(Classifier::NaturalLanguage__Basque);
    }
    if str_eq(s, "Natural Language :: Bengali") {
        return Some(Classifier::NaturalLanguage__Bengali);
    }
    if str_eq(s, "Natural Language :: Bosnian") {
        return Some(Classifier::NaturalLanguage__Bosnian);
    }
    if str_eq(s, "Natural Language :: Bulgarian") {
        return Some(Classifier::NaturalLanguage__Bulgarian);
    }
    if str_eq(s, "Natural Language :: Cantonese") {
        return Some(Classifier::NaturalLanguage__Cantonese);
    }
    if str_eq(s, "Natural Language :: Catalan") {
        return Some(Classifier::NaturalLanguage__Catalan);
    }
    if str_eq(s, "Natural Language :: Catalan (Valencian)") {
        return Some(Classifier::NaturalLanguage__CatalanValencian);
    }
    if str_eq(s, "Natural Language :: Chinese (Simplified)") {
        return Some(Classifier::NaturalLanguage__ChineseSimplified);
    }
    if str_eq(s, "Natural Language :: Chinese (Traditional)") {
        return Some(Classifier::NaturalLanguage__ChineseTraditional);
    }
    if str_eq(s, "Natural Language :: Croatian") {
        return Some(Classifier::NaturalLanguage__Croatian);
    }
    if str_eq(s, "Natural Language :: Czech") {
        return Some(Classifier::NaturalLanguage__Czech);
    }
    if str_eq(s, "Natural Language :: Danish") {
        return Some(Classifier::NaturalLanguage__Danish);
    }
    if str_eq(s, "Natural Language :: Dutch") {
        return Some(Classifier::NaturalLanguage__Dutch);
    }
    if str_eq(s, "Natural Language :: English") {
        return Some(Classifier::NaturalLanguage__English);
    }
    if str_eq(s, "Natural Language :: Esperanto") {
        return Some(Classifier::NaturalLanguage__Esperanto);
    }
    if str_eq(s, "Natural Language :: Finnish") {
        return Some(Classifier::NaturalLanguage__Finnish);
    }
    if str_eq(s, "Natural Language :: French") {
        return Some(Classifier::NaturalLanguage__French);
    }
    if str_eq(s, "Natural Language :: Galician") {
        return Some(Classifier::NaturalLanguage__Galician);
    }
    if str_eq(s, "Natural Language :: Georgian") {
        return Some(Classifier::NaturalLanguage__Georgian);
    }
    if str_eq(s, "Natural Language :: German") {
        return Some(Classifier::NaturalLanguage__German);
    }
    if str_eq(s, "Natural Language :: Greek") {
        return Some(Classifier::NaturalLanguage__Greek);
    }
    if str_eq(s, "Natural Language :: Hebrew") {
        return Some(Classifier::NaturalLanguage__Hebrew);
    }
    if str_eq(s, "Natural Language :: Hindi") {
        return Some(Classifier::NaturalLanguage__Hindi);
    }
    if str_eq(s, "Natural Language :: Hungarian") {
        return Some(Classifier::NaturalLanguage__Hungarian);
    }
    if str_eq(s, "Natural Language :: Icelandic") {
        return Some(Classifier::NaturalLanguage__Icelandic);
    }
    if str_eq(s, "Natural Language :: Indonesian") {
        return Some(Classifier::NaturalLanguage__Indonesian);
    }
    if str_eq(s, "Natural Language :: Irish") {
        return Some(Classifier::NaturalLanguage__Irish);
    }
    if str_eq(s, "Natural Language :: Italian") {
        return Some(Classifier::NaturalLanguage__Italian);
    }
    if str_eq(s, "Natural Language :: Japanese") {
        return Some(Classifier::NaturalLanguage__Japanese);
    }
    if str_eq(s, "Natural Language :: Javanese") {
        return Some(Classifier::NaturalLanguage__Javanese);
    }
    if str_eq(s, "Natural Language :: Korean") {
        return Some(Classifier::NaturalLanguage__Korean);
    }
    if str_eq(s, "Natural Language :: Latin") {
        return Some(Classifier::NaturalLanguage__Latin);
    }
    if str_eq(s, "Natural Language :: Latvian") {
        return Some(Classifier::NaturalLanguage__Latvian);
    }
    if str_eq(s, "Natural Language :: Lithuanian") {
        return Some(Classifier::NaturalLanguage__Lithuanian);
    }
    if str_eq(s, "Natural Language :: Macedonian") {
        return Some(Classifier::NaturalLanguage__Macedonian);
    }
    if str_eq(s, "Natural Language :: Malay") {
        return Some(Classifier::NaturalLanguage__Malay);
    }
    if str_eq(s, "Natural Language :: Marathi") {
        return Some(Classifier::NaturalLanguage__Marathi);
    }
    if str_eq(s, "Natural Language :: Nepali") {
        return Some(Classifier::NaturalLanguage__Nepali);
    }
    if str_eq(s, "Natural Language :: Norwegian") {
        return Some(Classifier::NaturalLanguage__Norwegian);
    }
    if str_eq(s, "Natural Language :: Panjabi") {
        return Some(Classifier::NaturalLanguage__Panjabi);
    }
    if str_eq(s, "Natural Language :: Persian") {
        return Some(Classifier::NaturalLanguage__Persian);
    }
    if str_eq(s, "Natural Language :: Polish") {
        return Some(Classifier::NaturalLanguage__Polish);
    }
    if str_eq(s, "Natural Language :: Portuguese") {
        return Some(Classifier::NaturalLanguage__Portuguese);
    }
    if str_eq(s, "Natural Language :: Portuguese (Brazilian)") {
        return Some(Classifier::NaturalLanguage__PortugueseBrazilian);
    }
    if str_eq(s, "Natural Language :: Romanian") {
        return Some(Classifier::NaturalLanguage__Romanian);
    }
    if str_eq(s, "Natural Language :: Russian") {
        return Some(Classifier::NaturalLanguage__Russian);
    }
    if str_eq(s, "Natural Language :: Serbian") {
        return Some(Classifier::NaturalLanguage__Serbian);
    }
    if str_eq(s, "Natural Language :: Slovak") {
        return Some(Classifier::NaturalLanguage__Slovak);
    }
    if str_eq(s, "Natural Language :: Slovenian") {
        return Some(Classifier::NaturalLanguage__Slovenian);
    }
    if str_eq(s, "Natural Language :: Spanish") {
        return Some(Classifier::NaturalLanguage__Spanish);
    }
    if str_eq(s, "Natural Language :: Swedish") {
        return Some(Classifier::NaturalLanguage__Swedish);
    }
    if str_eq(s, "Natural Language :: Tamil") {
        return Some(Classifier::NaturalLanguage__Tamil);
    }
    if str_eq(s, "Natural Language :: Telugu") {
        return Some(Classifier::NaturalLanguage__Telugu);
    }
    if str_eq(s, "Natural Language :: Thai") {
        return Some(Classifier::NaturalLanguage__Thai);
    }
    None
}

fn parse_natural_language_b(s: &str) -> (r: Option<Classifier>)
    ensures
        match r {
            Some(c) => c.tag() == s@,
            None => forall|c: Classifier| 405 <= #[trigger] c.rank() < 410 ==> c.tag() != s@,
        },
{
    if str_eq(s, "Natural Language :: Tibetan") {
        return Some(Classifier::NaturalLanguage__Tibetan);
    }
    if str_eq(s, "Natural Language :: Turkish") {
        return Some(Classifier::NaturalLanguage__Turkish);
    }
    if str_eq(s, "Natural Language :: Ukrainian") {
        return Some(Classifier::NaturalLanguage__Ukrainian);
    }
    if str_eq(s, "Natural Language :: Urdu") {
        return Some(Classifier::NaturalLanguage__Urdu);
    }
    if str_eq(s, "Natural Language :: Vietnamese") {
        return Some(Classifier::NaturalLanguage__Vietnamese);
    }
    None
}

fn parse_operating_system(s: &str) -> (r: Option<Classifier>)
    ensures
        match r {
            Some(c) => c.tag() == s@,
            None => forall|c: Classifier| 410 <= #[trigger] c.rank() < 453 ==> c.tag() != s@,
        },
{
    if str_eq(s, "Operating System :: Android") {
        return Some(Classifier::OperatingSystem__Android);
    }
    if str_eq(s, "Operating System :: BeOS") {
        return Some(Classifier::OperatingSystem__BeOS);
    }
    if str_eq(s, "Operating System :: MacOS") {
        return Some(Classifier::OperatingSystem__MacOS);
    }
    if str_eq(s, "Operating System :: MacOS :: MacOS 9") {
        return Some(Classifier::OperatingSystem__MacOS__MacOS9);
    }
    if str_eq(s, "Operating System :: MacOS :: MacOS X") {
        return Some(Classifier::OperatingSystem__MacOS__MacOSX);
    }
    if str_eq(s, "Operating System :: Microsoft") {
        return Some(Classifier::OperatingSystem__Microsoft);
    }
    if str_eq(s, "Operating System :: Microsoft :: MS-DOS") {
        return Some(Classifier::OperatingSystem__Microsoft__MSDOS);
    }
    if str_eq(s, "Operating System :: Microsoft :: Windows") {
        return Some(Classifier::OperatingSystem__Microsoft__Windows);
    }
    if str_eq(s, "Operating System :: Microsoft :: Windows :: Windows 10") {
        return Some(Classifier::OperatingSystem__Microsoft__Windows__Windows10);
    }
    if str_eq(s, "Operating System :: Microsoft :: Windows :: Windows 11") {
        return Some(Classifier::OperatingSystem__Microsoft__Windows__Windows11);
    }
    if str_eq(s, "Operating System :: Microsoft :: Windows :: Windows 3.1 or Earlier") {
        return Some(Classifier::OperatingSystem__Microsoft__Windows__Windows3_1orEarlier);
    }
    if str_eq(s, "Operating System :: Microsoft :: Windows :: Windows 7") {
        return Some(Classifier::OperatingSystem__Microsoft__Windows__Windows7);
    }
    if str_eq(s, "Operating System :: Microsoft :: Windows :: Windows 8") {
        return Some(Classifier::OperatingSystem__Microsoft__Windows__Windows8);
    }
    if str_eq(s, "Operating System :: Microsoft :: Windows :: Windows 8.1") {
        return Some(Classifier::OperatingSystem__Microsoft__Windows__Windows8_1);
    }
    if str_eq(s, "Operating System :: Microsoft :: Windows :: Windows 95/98/2000") {
        return Some(Classifier::OperatingSystem__Microsoft__Windows__Windows95982000);
    }
    if str_eq(s, "Operating System :: Microsoft :: Windows :: Windows CE") {
        return Some(Classifier::OperatingSystem__Microsoft__Windows__WindowsCE);
    }
    if str_eq(s, "Operating System :: Microsoft :: Windows :: Windows NT/2000") {
        return Some(Classifier::OperatingSystem__Microsoft__Windows__WindowsNT2000);
    }
    if str_eq(s, "Operating System :: Microsoft :: Windows :: Windows Server 2003") {
        return Some(Classifier::OperatingSystem__Microsoft__Windows__WindowsServer2003);
    }
    if str_eq(s, "Operating System :: Microsoft :: Windows :: Windows Server 2008") {
        return Some(Classifier::OperatingSystem__Microsoft__Windows__WindowsServer2008);
    }
    if str_eq(s, "Operating System :: Microsoft :: Windows :: Windows Vista") {
        return Some(Classifier::OperatingSystem__Microsoft__Windows__WindowsVista);
    }
    if str_eq(s, "Operating System :: Microsoft :: Windows :: Windows XP") {
        return Some(Classifier::OperatingSystem__Microsoft__Windows__WindowsXP);
    }
    if str_eq(s, "Operating System :: OS Independent") {
        return Some(Classifier::OperatingSystem__OSIndependent);
    }
    if str_eq(s, "Operating System :: OS/2") {
        return Some(Classifier::OperatingSystem__OS2);
    }
    if str_eq(s, "Operating System :: Other OS") {
        return Some(Classifier::OperatingSystem__OtherOS);
    }
    if str_eq(s, "Operating System :: PDA Systems") {
        return Some(Classifier::OperatingSystem__PDASystems);
    }
    if str_eq(s, "Operating System :: POSIX") {
        return Some(Classifier::OperatingSystem__POSIX);
    }
    if str_eq(s, "Operating System :: POSIX :: AIX") {
        return Some(Classifier::OperatingSystem__POSIX__AIX);
    }
    if str_eq(s, "Operating System :: POSIX :: BSD") {
        return Some(Classifier::OperatingSystem__POSIX__BSD);
    }
    if str_eq(s, "Operating System :: POSIX :: BSD :: BSD/OS") {
        return Some(Classifier::OperatingSystem__POSIX__BSD__BSDOS);
    }
    if str_eq(s, "Operating System :: POSIX :: BSD :: FreeBSD") {
        return Some(Classifier::OperatingSystem__POSIX__BSD__FreeBSD);
    }
    if str_eq(s, "Operating System :: POSIX :: BSD :: NetBSD") {
        return Some(Classifier::OperatingSystem__POSIX__BSD__NetBSD);
    }
    if str_eq(s, "Operating System :: POSIX :: BSD :: OpenBSD") {
        return Some(Classifier::OperatingSystem__POSIX__BSD__OpenBSD);
    }
    if str_eq(s, "Operating System :: POSIX :: GNU Hurd") {
        return Some(Classifier::OperatingSystem__POSIX__GNUHurd);
    }
    if str_eq(s, "Operating System :: POSIX :: HP-UX") {
        return Some(Classifier::OperatingSystem__POSIX__HPUX);
    }
    if str_eq(s, "Operating System :: POSIX :: IRIX") {
        return Some(Classifier::OperatingSystem__POSIX__IRIX);
    }
    if str_eq(s, "Operating System :: POSIX :: Linux") {
        return Some(Classifier::OperatingSystem__POSIX__Linux);
    }
    if str_eq(s, "Operating System :: POSIX :: Other") {
        return Some(Classifier::OperatingSystem__POSIX__Other);
    }
    if str_eq(s, "Operating System :: POSIX :: SCO") {
        return Some(Classifier::OperatingSystem__POSIX__SCO);
    }
    if str_eq(s, "Operating System :: POSIX :: SunOS/Solaris") {
        return Some(Classifier::OperatingSystem__POSIX__SunOSSolaris);
    }
    if str_eq(s, "Operating System :: PalmOS") {
        return Some(Classifier::OperatingSystem__PalmOS);
    }
    if str_eq(s, "Operating System :: RISC OS") {
        return Some(Classifier::OperatingSystem__RISCOS);
    }
    if str_eq(s, "Operating System :: Unix") {
        return Some(Classifier::OperatingSystem__Unix);
    }
    if str_eq(s, "Operating System :: iOS") {
        return Some(Classifier::OperatingSystem__iOS);
    }
    None
}

fn parse_programming_language_a(s: &str) -> (r: Option<Classifier>)
    ensures
        match r {
            Some(c) => c.tag() == s@,
            None => forall|c: Classifier| 453 <= #[trigger] c.rank() < 509 ==> c.tag() != s@,
        },
{
    if str_eq(s, "Programming Language :: APL") {
        return Some(Classifier::ProgrammingLanguage__APL);
    }
    if str_eq(s, "Programming Language :: ASP") {
        return Some(Classifier::ProgrammingLanguage__ASP);
    }
    if str_eq(s, "Programming Language :: Ada") {
        return Some(Classifier::ProgrammingLanguage__Ada);
    }
    if str_eq(s, "Programming Language :: Assembly") {
        return Some(Classifier::ProgrammingLanguage__Assembly);
    }
    if str_eq(s, "Programming Language :: Awk") {
        return Some(Classifier::ProgrammingLanguage__Awk);
    }
    if str_eq(s, "Programming Language :: Basic") {
        return Some(Classifier::ProgrammingLanguage__Basic);
    }
    if str_eq(s, "Programming Language :: C") {
        return Some(Classifier::ProgrammingLanguage__C);
    }
    if str_eq(s, "Programming Language :: C#") {
        return Some(Classifier::ProgrammingLanguage__Csharp);
    }
    if str_eq(s, "Programming Language :: C++") {
        return Some(Classifier::ProgrammingLanguage__Cplusplus);
    }
    if str_eq(s, "Programming Language :: Cold Fusion") {
        return Some(Classifier::ProgrammingLanguage__ColdFusion);
    }
    if str_eq(s, "Programming Language :: Cython") {
        return Some(Classifier::ProgrammingLanguage__Cython);
    }
    if str_eq(s, "Programming Language :: D") {
        return Some(Classifier::ProgrammingLanguage__D);
    }
    if str_eq(s, "Programming Language :: Delphi/Kylix") {
        return Some(Classifier::ProgrammingLanguage__DelphiKylix);
    }
    if str_eq(s, "Programming Language :: Dylan") {
        return Some(Classifier::ProgrammingLanguage__Dylan);
    }
    if str_eq(s, "Programming Language :: Eiffel") {
        return Some(Classifier::ProgrammingLanguage__Eiffel);
    }
    if str_eq(s, "Programming Language :: Emacs-Lisp") {
        return Some(Classifier::ProgrammingLanguage__EmacsLisp);
    }
    if str_eq(s, "Programming Language :: Erlang") {
        return Some(Classifier::ProgrammingLanguage__Erlang);
    }
    if str_eq(s, "Programming Language :: Euler") {
        return Some(Classifier::ProgrammingLanguage__Euler);
    }
    if str_eq(s, "Programming Language :: Euphoria") {
        return Some(Classifier::ProgrammingLanguage__Euphoria);
    }
    if str_eq(s, "Programming Language :: F#") {
        return Some(Classifier::ProgrammingLanguage__Fsharp);
    }
    if str_eq(s, "Programming Language :: Forth") {
        return Some(Classifier::ProgrammingLanguage__Forth);
    }
    if str_eq(s, "Programming Language :: Fortran") {
        return Some(Classifier::ProgrammingLanguage__Fortran);
    }
    if str_eq(s, "Programming Language :: Go") {
        return Some(Classifier::ProgrammingLanguage__Go);
    }
    if str_eq(s, "Programming Language :: Haskell") {
        return Some(Classifier::ProgrammingLanguage__Haskell);
    }
    if str_eq(s, "Programming Language :: Hy") {
        return Some(Classifier::ProgrammingLanguage__Hy);
    }
    if str_eq(s, "Programming Language :: Java") {
        return Some(Classifier::ProgrammingLanguage__Java);
    }
    if str_eq(s, "Programming Language :: JavaScript") {
        return Some(Classifier::ProgrammingLanguage__JavaScript);
    }
    if str_eq(s, "Programming Language :: Kotlin") {
        return Some(Classifier::ProgrammingLanguage__Kotlin);
    }
    if str_eq(s, "Programming Language :: Lisp") {
        return Some(Classifier::ProgrammingLanguage__Lisp);
    }
    if str_eq(s, "Programming Language :: Logo") {
        return Some(Classifier::ProgrammingLanguage__Logo);
    }
    if str_eq(s, "Programming Language :: Lua") {
        return Some(Classifier::ProgrammingLanguage__Lua);
    }
    if str_eq(s, "Programming Language :: ML") {
        return Some(Classifier::ProgrammingLanguage__ML);
    }
    if str_eq(s, "Programming Language :: Modula") {
        return Some(Classifier::ProgrammingLanguage__Modula);
    }
    if str_eq(s, "Programming Language :: OCaml") {
        return Some(Classifier::ProgrammingLanguage__OCaml);
    }
    if str_eq(s, "Programming Language :: Object Pascal") {
        return Some(Classifier::ProgrammingLanguage__ObjectPascal);
    }
    if str_eq(s, "Programming Language :: Objective C") {
        return Some(Classifier::ProgrammingLanguage__ObjectiveC);
    }
    if str_eq(s, "Programming Language :: Other") {
        return Some(Classifier::ProgrammingLanguage__Other);
    }
    if str_eq(s, "Programming Language :: Other Scripting Engines") {
        return Some(Classifier::ProgrammingLanguage__OtherScriptingEngines);
    }
    if str_eq(s, "Programming Language :: PHP") {
        return Some(Classifier::ProgrammingLanguage__PHP);
    }
    if str_eq(s, "Programming Language :: PL/SQL") {
        return Some(Classifier::ProgrammingLanguage__PLSQL);
    }
    if str_eq(s, "Programming Language :: PROGRESS") {
        return Some(Classifier::ProgrammingLanguage__PROGRESS);
    }
    if str_eq(s, "Programming Language :: Pascal") {
        return Some(Classifier::ProgrammingLanguage__Pascal);
    }
    if str_eq(s, "Programming Language :: Perl") {
        return Some(Classifier::ProgrammingLanguage__Perl);
    }
    if str_eq(s, "Programming Language :: Pike") {
        return Some(Classifier::ProgrammingLanguage__Pike);
    }
    if str_eq(s, "Programming Language :: Pliant") {
        return Some(Classifier::ProgrammingLanguage__Pliant);
    }
    if str_eq(s, "Programming Language :: Prolog") {
        return Some(Classifier::ProgrammingLanguage__Prolog);
    }
    if str_eq(s, "Programming Language :: Python") {
        return Some(Classifier::ProgrammingLanguage__Python);
    }
    if str_eq(s, "Programming Language :: Python :: 2") {
        return Some(Classifier::ProgrammingLanguage__Python__2);
    }
    if str_eq(s, "Programming Language :: Python :: 2 :: Only") {
        return Some(Classifier::ProgrammingLanguage__Python__2__Only);
    }
    if str_eq(s, "Programming Language :: Python :: 2.3") {
        return Some(Classifier::ProgrammingLanguage__Python__2_3);
    }
    if str_eq(s, "Programming Language :: Python :: 2.4") {
        return Some(Classifier::ProgrammingLanguage__Python__2_4);
    }
    if str_eq(s, "Programming Language :: Python :: 2.5") {
        return Some(Classifier::ProgrammingLanguage__Python__2_5);
    }
    if str_eq(s, "Programming Language :: Python :: 2.6") {
        return Some(Classifier::ProgrammingLanguage__Python__2_6);
    }
    if str_eq(s, "Programming Language :: Python :: 2.7") {
        return Some(Classifier::ProgrammingLanguage__Python__2_7);
    }
    if str_eq(s, "Programming Language :: Python :: 3") {
        return Some(Classifier::ProgrammingLanguage__Python__3);
    }
    if str_eq(s, "Programming Language :: Python :: 3 :: Only") {
        return Some(Classifier::ProgrammingLanguage__Python__3__Only);
    }
    None
}

fn parse_programming_language_b(s: &str) -> (r: Option<Classifier>)
    ensures
        match r {
            Some(c) => c.tag() == s@,
            None => forall|c: Classifier| 509 <= #[trigger] c.rank() < 546 ==> c.tag() != s@,
        },
{
    if str_eq(s, "Programming Language :: Python :: 3.0") {
        return Some(Classifier::ProgrammingLanguage__Python__3_0);
    }
    if str_eq(s, "Programming Language :: Python :: 3.1") {
        return Some(Classifier::ProgrammingLanguage__Python__3_1);
    }
    if str_eq(s, "Programming Language :: Python :: 3.10") {
        return Some(Classifier::ProgrammingLanguage__Python__3_10);
    }
    if str_eq(s, "Programming Language :: Python :: 3.11") {
        return Some(Classifier::ProgrammingLanguage__Python__3_11);
    }
    if str_eq(s, "Programming Language :: Python :: 3.12") {
        return Some(Classifier::ProgrammingLanguage__Python__3_12);
    }
    if str_eq(s, "Programming Language :: Python :: 3.13") {
        return Some(Classifier::ProgrammingLanguage__Python__3_13);
    }
    if str_eq(s, "Programming Language :: Python :: 3.14") {
        return Some(Classifier::ProgrammingLanguage__Python__3_14);
    }
    if str_eq(s, "Programming Language :: Python :: 3.2") {
        return Some(Classifier::ProgrammingLanguage__Python__3_2);
    }
    if str_eq(s, "Programming Language :: Python :: 3.3") {
        return Some(Classifier::ProgrammingLanguage__Python__3_3);
    }
    if str_eq(s, "Programming Language :: Python :: 3.4") {
        return Some(Classifier::ProgrammingLanguage__Python__3_4);
    }
    if str_eq(s, "Programming Language :: Python :: 3.5") {
        return Some(Classifier::ProgrammingLanguage__Python__3_5);
    }
    if str_eq(s, "Programming Language :: Python :: 3.6") {
        return Some(Classifier::ProgrammingLanguage__Python__3_6);
    }
    if str_eq(s, "Programming Language :: Python :: 3.7") {
        return Some(Classifier::ProgrammingLanguage__Python__3_7);
    }
    if str_eq(s, "Programming Language :: Python :: 3.8") {
        return Some(Classifier::ProgrammingLanguage__Python__3_8);
    }
    if str_eq(s, "Programming Language :: Python :: 3.9") {
        return Some(Classifier::ProgrammingLanguage__Python__3_9);
    }
    if str_eq(s, "Programming Language :: Python :: Implementation") {
        return Some(Classifier::ProgrammingLanguage__Python__Implementation);
    }
    if str_eq(s, "Programming Language :: Python :: Implementation :: CPython") {
        return Some(Classifier::ProgrammingLanguage__Python__Implementation__CPython);
    }
    if str_eq(s, "Programming Language :: Python :: Implementation :: IronPython") {
        return Some(Classifier::ProgrammingLanguage__Python__Implementation__IronPython);
    }
    if str_eq(s, "Programming Language :: Python :: Implementation :: Jython") {
        return Some(Classifier::ProgrammingLanguage__Python__Implementation__Jython);
    }
    if str_eq(s, "Programming Language :: Python :: Implementation :: MicroPython") {
        return Some(Classifier::ProgrammingLanguage__Python__Implementation__MicroPython);
    }
    if str_eq(s, "Programming Language :: Python :: Implementation :: PyPy") {
        return Some(Classifier::ProgrammingLanguage__Python__Implementation__PyPy);
    }
    if str_eq(s, "Programming Language :: Python :: Implementation :: Stackless") {
        return Some(Classifier::ProgrammingLanguage__Python__Implementation__Stackless);
    }
    if str_eq(s, "Programming Language :: R") {
        return Some(Classifier::ProgrammingLanguage__R);
    }
    if str_eq(s, "Programming Language :: REBOL") {
        return Some(Classifier::ProgrammingLanguage__REBOL);
    }
    if str_eq(s, "Programming Language :: Rexx") {
        return Some(Classifier::ProgrammingLanguage__Rexx);
    }
    if str_eq(s, "Programming Language :: Ruby") {
        return Some(Classifier::ProgrammingLanguage__Ruby);
    }
    if str_eq(s, "Programming Language :: Rust") {
        return Some(Classifier::ProgrammingLanguage__Rust);
    }
    if str_eq(s, "Programming Language :: SQL") {
        return Some(Classifier::ProgrammingLanguage__SQL);
    }
    if str_eq(s, "Programming Language :: Scheme") {
        return Some(Classifier::ProgrammingLanguage__Scheme);
    }
    if str_eq(s, "Programming Language :: Simula") {
        return Some(Classifier::ProgrammingLanguage__Simula);
    }
    if str_eq(s, "Programming Language :: Smalltalk") {
        return Some(Classifier::ProgrammingLanguage__Smalltalk);
    }
    if str_eq(s, "Programming Language :: Tcl") {
        return Some(Classifier::ProgrammingLanguage__Tcl);
    }
    if str_eq(s, "Programming Language :: Unix Shell") {
        return Some(Classifier::ProgrammingLanguage__UnixShell);
    }
    if str_eq(s, "Programming Language :: Visual Basic") {
        return Some(Classifier::ProgrammingLanguage__VisualBasic);
    }
    if str_eq(s, "Programming Language :: XBasic") {
        return Some(Classifier::ProgrammingLanguage__XBasic);
    }
    if str_eq(s, "Programming Language :: YACC") {
        return Some(Classifier::ProgrammingLanguage__YACC);
    }
    if str_eq(s, "Programming Language :: Zope") {
        return Some(Classifier::ProgrammingLanguage__Zope);
    }
    None
}

fn parse_topic_a(s: &str) -> (r: Option<Classifier>)
    ensures
        match r {
            Some(c) => c.tag() == s@,
            None => forall|c: Classifier| 546 <= #[trigger] c.rank() < 602 ==> c.tag() != s@,
        },
{
    if str_eq(s, "Topic :: Adaptive Technologies") {
        return Some(Classifier::Topic__AdaptiveTechnologies);
    }
    if str_eq(s, "Topic :: Artistic Software") {
        return Some(Classifier::Topic__ArtisticSoftware);
    }
    if str_eq(s, "Topic :: Communications") {
        return Some(Classifier::Topic__Communications);
    }
    if str_eq(s, "Topic :: Communications :: BBS") {
        return Some(Classifier::Topic__Communications__BBS);
    }
    if str_eq(s, "Topic :: Communications :: Chat") {
        return Some(Classifier::Topic__Communications__Chat);
    }
    if str_eq(s, "Topic :: Communications :: Chat :: ICQ") {
        return Some(Classifier::Topic__Communications__Chat__ICQ);
    }
    if str_eq(s, "Topic :: Communications :: Chat :: Internet Relay Chat") {
        return Some(Classifier::Topic__Communications__Chat__InternetRelayChat);
    }
    if str_eq(s, "Topic :: Communications :: Chat :: Unix Talk") {
        return Some(Classifier::Topic__Communications__Chat__UnixTalk);
    }
    if str_eq(s, "Topic :: Communications :: Conferencing") {
        return Some(Classifier::Topic__Communications__Conferencing);
    }
    if str_eq(s, "Topic :: Communications :: Email") {
        return Some(Classifier::Topic__Communications__Email);
    }
    if str_eq(s, "Topic :: Communications :: Email :: Address Book") {
        return Some(Classifier::Topic__Communications__Email__AddressBook);
    }
    if str_eq(s, "Topic :: Communications :: Email :: Email Clients (MUA)") {
        return Some(Classifier::Topic__Communications__Email__EmailClientsMUA);
    }
    if str_eq(s, "Topic :: Communications :: Email :: Filters") {
        return Some(Classifier::Topic__Communications__Email__Filters);
    }
    if str_eq(s, "Topic :: Communications :: Email :: Mail Transport Agents") {
        return Some(Classifier::Topic__Communications__Email__MailTransportAgents);
    }
    if str_eq(s, "Topic :: Communications :: Email :: Mailing List Servers") {
        return Some(Classifier::Topic__Communications__Email__MailingListServers);
    }
    if str_eq(s, "Topic :: Communications :: Email :: Post-Office") {
        return Some(Classifier::Topic__Communications__Email__PostOffice);
    }
    if str_eq(s, "Topic :: Communications :: Email :: Post-Office :: IMAP") {
        return Some(Classifier::Topic__Communications__Email__PostOffice__IMAP);
    }
    if str_eq(s, "Topic :: Communications :: Email :: Post-Office :: POP3") {
        return Some(Classifier::Topic__Communications__Email__PostOffice__POP3);
    }
    if str_eq(s, "Topic :: Communications :: FIDO") {
        return Some(Classifier::Topic__Communications__FIDO);
    }
    if str_eq(s, "Topic :: Communications :: Fax") {
        return Some(Classifier::Topic__Communications__Fax);
    }
    if str_eq(s, "Topic :: Communications :: File Sharing") {
        return Some(Classifier::Topic__Communications__FileSharing);
    }
    if str_eq(s, "Topic :: Communications :: File Sharing :: Gnutella") {
        return Some(Classifier::Topic__Communications__FileSharing__Gnutella);
    }
    if str_eq(s, "Topic :: Communications :: File Sharing :: Napster") {
        return Some(Classifier::Topic__Communications__FileSharing__Napster);
    }
    if str_eq(s, "Topic :: Communications :: Ham Radio") {
        return Some(Classifier::Topic__Communications__HamRadio);
    }
    if str_eq(s, "Topic :: Communications :: Internet Phone") {
        return Some(Classifier::Topic__Communications__InternetPhone);
    }
    if str_eq(s, "Topic :: Communications :: Telephony") {
        return Some(Classifier::Topic__Communications__Telephony);
    }
    if str_eq(s, "Topic :: Communications :: Usenet News") {
        return Some(Classifier::Topic__Communications__UsenetNews);
    }
    if str_eq(s, "Topic :: Database") {
        return Some(Classifier::Topic__Database);
    }
    if str_eq(s, "Topic :: Database :: Database Engines/Servers") {
        return Some(Classifier::Topic__Database__DatabaseEnginesServers);
    }
    if str_eq(s, "Topic :: Database :: Front-Ends") {
        return Some(Classifier::Topic__Database__FrontEnds);
    }
    if str_eq(s, "Topic :: Desktop Environment") {
        return Some(Classifier::Topic__DesktopEnvironment);
    }
    if str_eq(s, "Topic :: Desktop Environment :: File Managers") {
        return Some(Classifier::Topic__DesktopEnvironment__FileManagers);
    }
    if str_eq(s, "Topic :: Desktop Environment :: GNUstep") {
        return Some(Classifier::Topic__DesktopEnvironment__GNUstep);
    }
    if str_eq(s, "Topic :: Desktop Environment :: Gnome") {
        return Some(Classifier::Topic__DesktopEnvironment__Gnome);
    }
    if str_eq(s, "Topic :: Desktop Environment :: K Desktop Environment (KDE)") {
        return Some(Classifier::Topic__DesktopEnvironment__KDesktopEnvironmentKDE);
    }
    if str_eq(s, "Topic :: Desktop Environment :: K Desktop Environment (KDE) :: Themes") {
        return Some(Classifier::Topic__DesktopEnvironment__KDesktopEnvironmentKDE__Themes);
    }
    if str_eq(s, "Topic :: Desktop Environment :: PicoGUI") {
        return Some(Classifier::Topic__DesktopEnvironment__PicoGUI);
    }
    if str_eq(s, "Topic :: Desktop Environment :: PicoGUI :: Applications") {
        return Some(Classifier::Topic__DesktopEnvironment__PicoGUI__Applications);
    }
    if str_eq(s, "Topic :: Desktop Environment :: PicoGUI :: Themes") {
        return Some(Classifier::Topic__DesktopEnvironment__PicoGUI__Themes);
    }
    if str_eq(s, "Topic :: Desktop Environment :: Screen Savers") {
        return Some(Classifier::Topic__DesktopEnvironment__ScreenSavers);
    }
    if str_eq(s, "Topic :: Desktop Environment :: Window Managers") {
        return Some(Classifier::Topic__DesktopEnvironment__WindowManagers);
    }
    if str_eq(s, "Topic :: Desktop Environment :: Window Managers :: Afterstep") {
        return Some(Classifier::Topic__DesktopEnvironment__WindowManagers__Afterstep);
    }
    if str_eq(s, "Topic :: Desktop Environment :: Window Managers :: Afterstep :: Themes") {
        return Some(Classifier::Topic__DesktopEnvironment__WindowManagers__Afterstep__Themes);
    }
    if str_eq(s, "Topic :: Desktop Environment :: Window Managers :: Applets") {
        return Some(Classifier::Topic__DesktopEnvironment__WindowManagers__Applets);
    }
    if str_eq(s, "Topic :: Desktop Environment :: Window Managers :: Blackbox") {
        return Some(Classifier::Topic__DesktopEnvironment__WindowManagers__Blackbox);
    }
    if str_eq(s, "Topic :: Desktop Environment :: Window Managers :: Blackbox :: Themes") {
        return Some(Classifier::Topic__DesktopEnvironment__WindowManagers__Blackbox__Themes);
    }
    if str_eq(s, "Topic :: Desktop Environment :: Window Managers :: CTWM") {
        return Some(Classifier::Topic__DesktopEnvironment__WindowManagers__CTWM);
    }
    if str_eq(s, "Topic :: Desktop Environment :: Window Managers :: CTWM :: Themes") {
        return Some(Classifier::Topic__DesktopEnvironment__WindowManagers__CTWM__Themes);
    }
    if str_eq(s, "Topic :: Desktop Environment :: Window Managers :: Enlightenment") {
        return Some(Classifier::Topic__DesktopEnvironment__WindowManagers__Enlightenment);
    }
    if str_eq(s, "Topic :: Desktop Environment :: Window Managers :: Enlightenment :: Epplets") {
        return Some(Classifier::Topic__DesktopEnvironment__WindowManagers__Enlightenment__Epplets);
    }
    if str_eq(s, "Topic :: Desktop Environment :: Window Managers :: Enlightenment :: Themes DR15") {
        return Some(Classifier::Topic__DesktopEnvironment__WindowManagers__Enlightenment__ThemesDR15);
    }
    if str_eq(s, "Topic :: Desktop Environment :: Window Managers :: Enlightenment :: Themes DR16") {
        return Some(Classifier::Topic__DesktopEnvironment__WindowManagers__Enlightenment__ThemesDR16);
    }
    if str_eq(s, "Topic :: Desktop Environment :: Window Managers :: Enlightenment :: Themes DR17") {
        return Some(Classifier::Topic__DesktopEnvironment__WindowManagers__Enlightenment__ThemesDR17);
    }
    if str_eq(s, "Topic :: Desktop Environment :: Window Managers :: FVWM") {
        return Some(Classifier::Topic__DesktopEnvironment__WindowManagers__FVWM);
    }
    if str_eq(s, "Topic :: Desktop Environment :: Window Managers :: FVWM :: Themes") {
        return Some(Classifier::Topic__DesktopEnvironment__WindowManagers__FVWM__Themes);
    }
    if str_eq(s, "Topic :: Desktop Environment :: Window Managers :: Fluxbox") {
        return Some(Classifier::Topic__DesktopEnvironment__WindowManagers__Fluxbox);
    }
    None
}

fn parse_topic_b(s: &str) -> (r: Option<Classifier>)
    ensures
        match r {
            Some(c) => c.tag() == s@,
            None => forall|c: Classifier| 602 <= #[trigger] c.rank() < 658 ==> c.tag() != s@,
        },
{
    if str_eq(s, "Topic :: Desktop Environment :: Window Managers :: Fluxbox :: Themes") {
        return Some(Classifier::Topic__DesktopEnvironment__WindowManagers__Fluxbox__Themes);
    }
    if str_eq(s, "Topic :: Desktop Environment :: Window Managers :: IceWM") {
        return Some(Classifier::Topic__DesktopEnvironment__WindowManagers__IceWM);
    }
    if str_eq(s, "Topic :: Desktop Environment :: Window Managers :: IceWM :: Themes") {
        return Some(Classifier::Topic__DesktopEnvironment__WindowManagers__IceWM__Themes);
    }
    if str_eq(s, "Topic :: Desktop Environment :: Window Managers :: MetaCity") {
        return Some(Classifier::Topic__DesktopEnvironment__WindowManagers__MetaCity);
    }
    if str_eq(s, "Topic :: Desktop Environment :: Window Managers :: MetaCity :: Themes") {
        return Some(Classifier::Topic__DesktopEnvironment__WindowManagers__MetaCity__Themes);
    }
    if str_eq(s, "Topic :: Desktop Environment :: Window Managers :: Oroborus") {
        return Some(Classifier::Topic__DesktopEnvironment__WindowManagers__Oroborus);
    }
    if str_eq(s, "Topic :: Desktop Environment :: Window Managers :: Oroborus :: Themes") {
        return Some(Classifier::Topic__DesktopEnvironment__WindowManagers__Oroborus__Themes);
    }
    if str_eq(s, "Topic :: Desktop Environment :: Window Managers :: Sawfish") {
        return Some(Classifier::Topic__DesktopEnvironment__WindowManagers__Sawfish);
    }
    if str_eq(s, "Topic :: Desktop Environment :: Window Managers :: Sawfish :: Themes 0.30") {
        return Some(Classifier::Topic__DesktopEnvironment__WindowManagers__Sawfish__Themes0_30);
    }
    if str_eq(s, "Topic :: Desktop Environment :: Window Managers :: Sawfish :: Themes pre-0.30") {
        return Some(Classifier::Topic__DesktopEnvironment__WindowManagers__Sawfish__Themespre0_30);
    }
    if str_eq(s, "Topic :: Desktop Environment :: Window Managers :: Waimea") {
        return Some(Classifier::Topic__DesktopEnvironment__WindowManagers__Waimea);
    }
    if str_eq(s, "Topic :: Desktop Environment :: Window Managers :: Waimea :: Themes") {
        return Some(Classifier::Topic__DesktopEnvironment__WindowManagers__Waimea__Themes);
    }
    if str_eq(s, "Topic :: Desktop Environment :: Window Managers :: Window Maker") {
        return Some(Classifier::Topic__DesktopEnvironment__WindowManagers__WindowMaker);
    }
    if str_eq(s, "Topic :: Desktop Environment :: Window Managers :: Window Maker :: Applets") {
        return Some(Classifier::Topic__DesktopEnvironment__WindowManagers__WindowMaker__Applets);
    }
    if str_eq(s, "Topic :: Desktop Environment :: Window Managers :: Window Maker :: Themes") {
        return Some(Classifier::Topic__DesktopEnvironment__WindowManagers__WindowMaker__Themes);
    }
    if str_eq(s, "Topic :: Desktop Environment :: Window Managers :: XFCE") {
        return Some(Classifier::Topic__DesktopEnvironment__WindowManagers__XFCE);
    }
    if str_eq(s, "Topic :: Desktop Environment :: Window Managers :: XFCE :: Themes") {
        return Some(Classifier::Topic__DesktopEnvironment__WindowManagers__XFCE__Themes);
    }
    if str_eq(s, "Topic :: Documentation") {
        return Some(Classifier::Topic__Documentation);
    }
    if str_eq(s, "Topic :: Documentation :: Sphinx") {
        return Some(Classifier::Topic__Documentation__Sphinx);
    }
    if str_eq(s, "Topic :: Education") {
        return Some(Classifier::Topic__Education);
    }
    if str_eq(s, "Topic :: Education :: Computer Aided Instruction (CAI)") {
        return Some(Classifier::Topic__Education__ComputerAidedInstructionCAI);
    }
    if str_eq(s, "Topic :: Education :: Testing") {
        return Some(Classifier::Topic__Education__Testing);
    }
    if str_eq(s, "Topic :: File Formats") {
        return Some(Classifier::Topic__FileFormats);
    }
    if str_eq(s, "Topic :: File Formats :: JSON") {
        return Some(Classifier::Topic__FileFormats__JSON);
    }
    if str_eq(s, "Topic :: File Formats :: JSON :: JSON Schema") {
        return Some(Classifier::Topic__FileFormats__JSON__JSONSchema);
    }
    if str_eq(s, "Topic :: Games/Entertainment") {
        return Some(Classifier::Topic__GamesEntertainment);
    }
    if str_eq(s, "Topic :: Games/Entertainment :: Arcade") {
        return Some(Classifier::Topic__GamesEntertainment__Arcade);
    }
    if str_eq(s, "Topic :: Games/Entertainment :: Board Games") {
        return Some(Classifier::Topic__GamesEntertainment__BoardGames);
    }
    if str_eq(s, "Topic :: Games/Entertainment :: First Person Shooters") {
        return Some(Classifier::Topic__GamesEntertainment__FirstPersonShooters);
    }
    if str_eq(s, "Topic :: Games/Entertainment :: Fortune Cookies") {
        return Some(Classifier::Topic__GamesEntertainment__FortuneCookies);
    }
    if str_eq(s, "Topic :: Games/Entertainment :: Multi-User Dungeons (MUD)") {
        return Some(Classifier::Topic__GamesEntertainment__MultiUserDungeonsMUD);
    }
    if str_eq(s, "Topic :: Games/Entertainment :: Puzzle Games") {
        return Some(Classifier::Topic__GamesEntertainment__PuzzleGames);
    }
    if str_eq(s, "Topic :: Games/Entertainment :: Real Time Strategy") {
        return Some(Classifier::Topic__GamesEntertainment__RealTimeStrategy);
    }
    if str_eq(s, "Topic :: Games/Entertainment :: Role-Playing") {
        return Some(Classifier::Topic__GamesEntertainment__RolePlaying);
    }
    if str_eq(s, "Topic :: Games/Entertainment :: Side-Scrolling/Arcade Games") {
        return Some(Classifier::Topic__GamesEntertainment__SideScrollingArcadeGames);
    }
    if str_eq(s, "Topic :: Games/Entertainment :: Simulation") {
        return Some(Classifier::Topic__GamesEntertainment__Simulation);
    }
    if str_eq(s, "Topic :: Games/Entertainment :: Turn Based Strategy") {
        return Some(Classifier::Topic__GamesEntertainment__TurnBasedStrategy);
    }
    if str_eq(s, "Topic :: Home Automation") {
        return Some(Classifier::Topic__HomeAutomation);
    }
    if str_eq(s, "Topic :: Internet") {
        return Some(Classifier::Topic__Internet);
    }
    if str_eq(s, "Topic :: Internet :: File Transfer Protocol (FTP)") {
        return Some(Classifier::Topic__Internet__FileTransferProtocolFTP);
    }
    if str_eq(s, "Topic :: Internet :: Finger") {
        return Some(Classifier::Topic__Internet__Finger);
    }
    if str_eq(s, "Topic :: Internet :: Log Analysis") {
        return Some(Classifier::Topic__Internet__LogAnalysis);
    }
    if str_eq(s, "Topic :: Internet :: Name Service (DNS)") {
        return Some(Classifier::Topic__Internet__NameServiceDNS);
    }
    if str_eq(s, "Topic :: Internet :: Proxy Servers") {
        return Some(Classifier::Topic__Internet__ProxyServers);
    }
    if str_eq(s, "Topic :: Internet :: WAP") {
        return Some(Classifier::Topic__Internet__WAP);
    }
    if str_eq(s, "Topic :: Internet :: WWW/HTTP") {
        return Some(Classifier::Topic__Internet__WWWHTTP);
    }
    if str_eq(s, "Topic :: Internet :: WWW/HTTP :: Browsers") {
        return Some(Classifier::Topic__Internet__WWWHTTP__Browsers);
    }
    if str_eq(s, "Topic :: Internet :: WWW/HTTP :: Dynamic Content") {
        return Some(Classifier::Topic__Internet__WWWHTTP__DynamicContent);
    }
    if str_eq(s, "Topic :: Internet :: WWW/HTTP :: Dynamic Content :: CGI Tools/Libraries") {
        return Some(Classifier::Topic__Internet__WWWHTTP__DynamicContent__CGIToolsLibraries);
    }
    if str_eq(s, "Topic :: Internet :: WWW/HTTP :: Dynamic Content :: Content Management System") {
        return Some(Classifier::Topic__Internet__WWWHTTP__DynamicContent__ContentManagementSystem);
    }
    if str_eq(s, "Topic :: Internet :: WWW/HTTP :: Dynamic Content :: Message Boards") {
        return Some(Classifier::Topic__Internet__WWWHTTP__DynamicContent__MessageBoards);
    }
    if str_eq(s, "Topic :: Internet :: WWW/HTTP :: Dynamic Content :: News/Diary") {
        return Some(Classifier::Topic__Internet__WWWHTTP__DynamicContent__NewsDiary);
    }
    if str_eq(s, "Topic :: Internet :: WWW/HTTP :: Dynamic Content :: Page Counters") {
        return Some(Classifier::Topic__Internet__WWWHTTP__DynamicContent__PageCounters);
    }
    if str_eq(s, "Topic :: Internet :: WWW/HTTP :: Dynamic Content :: Wiki") {
        return Some(Classifier::Topic__Internet__WWWHTTP__DynamicContent__Wiki);
    }
    if str_eq(s, "Topic :: Internet :: WWW/HTTP :: HTTP Servers") {
        return Some(Classifier::Topic__Internet__WWWHTTP__HTTPServers);
    }
    if str_eq(s, "Topic :: Internet :: WWW/HTTP :: Indexing/Search") {
        return Some(Classifier::Topic__Internet__WWWHTTP__IndexingSearch);
    }
    None
}

fn parse_topic_c(s: &str) -> (r: Option<Classifier>)
    ensures
        match r {
            Some(c) => c.tag() == s@,
            None => forall|c: Classifier| 658 <= #[trigger] c.rank() < 714 ==> c.tag() != s@,
        },
{
    if str_eq(s, "Topic :: Internet :: WWW/HTTP :: Session") {
        return Some(Classifier::Topic__Internet__WWWHTTP__Session);
    }
    if str_eq(s, "Topic :: Internet :: WWW/HTTP :: Site Management") {
        return Some(Classifier::Topic__Internet__WWWHTTP__SiteManagement);
    }
    if str_eq(s, "Topic :: Internet :: WWW/HTTP :: Site Management :: Link Checking") {
        return Some(Classifier::Topic__Internet__WWWHTTP__SiteManagement__LinkChecking);
    }
    if str_eq(s, "Topic :: Internet :: WWW/HTTP :: WSGI") {
        return Some(Classifier::Topic__Internet__WWWHTTP__WSGI);
    }
    if str_eq(s, "Topic :: Internet :: WWW/HTTP :: WSGI :: Application") {
        return Some(Classifier::Topic__Internet__WWWHTTP__WSGI__Application);
    }
    if str_eq(s, "Topic :: Internet :: WWW/HTTP :: WSGI :: Middleware") {
        return Some(Classifier::Topic__Internet__WWWHTTP__WSGI__Middleware);
    }
    if str_eq(s, "Topic :: Internet :: WWW/HTTP :: WSGI :: Server") {
        return Some(Classifier::Topic__Internet__WWWHTTP__WSGI__Server);
    }
    if str_eq(s, "Topic :: Internet :: XMPP") {
        return Some(Classifier::Topic__Internet__XMPP);
    }
    if str_eq(s, "Topic :: Internet :: Z39.50") {
        return Some(Classifier::Topic__Internet__Z39_50);
    }
    if str_eq(s, "Topic :: Multimedia") {
        return Some(Classifier::Topic__Multimedia);
    }
    if str_eq(s, "Topic :: Multimedia :: Graphics") {
        return Some(Classifier::Topic__Multimedia__Graphics);
    }
    if str_eq(s, "Topic :: Multimedia :: Graphics :: 3D Modeling") {
        return Some(Classifier::Topic__Multimedia__Graphics__3DModeling);
    }
    if str_eq(s, "Topic :: Multimedia :: Graphics :: 3D Rendering") {
        return Some(Classifier::Topic__Multimedia__Graphics__3DRendering);
    }
    if str_eq(s, "Topic :: Multimedia :: Graphics :: Capture") {
        return Some(Classifier::Topic__Multimedia__Graphics__Capture);
    }
    if str_eq(s, "Topic :: Multimedia :: Graphics :: Capture :: Digital Camera") {
        return Some(Classifier::Topic__Multimedia__Graphics__Capture__DigitalCamera);
    }
    if str_eq(s, "Topic :: Multimedia :: Graphics :: Capture :: Scanners") {
        return Some(Classifier::Topic__Multimedia__Graphics__Capture__Scanners);
    }
    if str_eq(s, "Topic :: Multimedia :: Graphics :: Capture :: Screen Capture") {
        return Some(Classifier::Topic__Multimedia__Graphics__Capture__ScreenCapture);
    }
    if str_eq(s, "Topic :: Multimedia :: Graphics :: Editors") {
        return Some(Classifier::Topic__Multimedia__Graphics__Editors);
    }
    if str_eq(s, "Topic :: Multimedia :: Graphics :: Editors :: Raster-Based") {
        return Some(Classifier::Topic__Multimedia__Graphics__Editors__RasterBased);
    }
    if str_eq(s, "Topic :: Multimedia :: Graphics :: Editors :: Vector-Based") {
        return Some(Classifier::Topic__Multimedia__Graphics__Editors__VectorBased);
    }
    if str_eq(s, "Topic :: Multimedia :: Graphics :: Graphics Conversion") {
        return Some(Classifier::Topic__Multimedia__Graphics__GraphicsConversion);
    }
    if str_eq(s, "Topic :: Multimedia :: Graphics :: Presentation") {
        return Some(Classifier::Topic__Multimedia__Graphics__Presentation);
    }
    if str_eq(s, "Topic :: Multimedia :: Graphics :: Viewers") {
        return Some(Classifier::Topic__Multimedia__Graphics__Viewers);
    }
    if str_eq(s, "Topic :: Multimedia :: Sound/Audio") {
        return Some(Classifier::Topic__Multimedia__SoundAudio);
    }
    if str_eq(s, "Topic :: Multimedia :: Sound/Audio :: Analysis") {
        return Some(Classifier::Topic__Multimedia__SoundAudio__Analysis);
    }
    if str_eq(s, "Topic :: Multimedia :: Sound/Audio :: CD Audio") {
        return Some(Classifier::Topic__Multimedia__SoundAudio__CDAudio);
    }
    if str_eq(s, "Topic :: Multimedia :: Sound/Audio :: CD Audio :: CD Playing") {
        return Some(Classifier::Topic__Multimedia__SoundAudio__CDAudio__CDPlaying);
    }
    if str_eq(s, "Topic :: Multimedia :: Sound/Audio :: CD Audio :: CD Ripping") {
        return Some(Classifier::Topic__Multimedia__SoundAudio__CDAudio__CDRipping);
    }
    if str_eq(s, "Topic :: Multimedia :: Sound/Audio :: CD Audio :: CD Writing") {
        return Some(Classifier::Topic__Multimedia__SoundAudio__CDAudio__CDWriting);
    }
    if str_eq(s, "Topic :: Multimedia :: Sound/Audio :: Capture/Recording") {
        return Some(Classifier::Topic__Multimedia__SoundAudio__CaptureRecording);
    }
    if str_eq(s, "Topic :: Multimedia :: Sound/Audio :: Conversion") {
        return Some(Classifier::Topic__Multimedia__SoundAudio__Conversion);
    }
    if str_eq(s, "Topic :: Multimedia :: Sound/Audio :: Editors") {
        return Some(Classifier::Topic__Multimedia__SoundAudio__Editors);
    }
    if str_eq(s, "Topic :: Multimedia :: Sound/Audio :: MIDI") {
        return Some(Classifier::Topic__Multimedia__SoundAudio__MIDI);
    }
    if str_eq(s, "Topic :: Multimedia :: Sound/Audio :: Mixers") {
        return Some(Classifier::Topic__Multimedia__SoundAudio__Mixers);
    }
    if str_eq(s, "Topic :: Multimedia :: Sound/Audio :: Players") {
        return Some(Classifier::Topic__Multimedia__SoundAudio__Players);
    }
    if str_eq(s, "Topic :: Multimedia :: Sound/Audio :: Players :: MP3") {
        return Some(Classifier::Topic__Multimedia__SoundAudio__Players__MP3);
    }
    if str_eq(s, "Topic :: Multimedia :: Sound/Audio :: Sound Synthesis") {
        return Some(Classifier::Topic__Multimedia__SoundAudio__SoundSynthesis);
    }
    if str_eq(s, "Topic :: Multimedia :: Sound/Audio :: Speech") {
        return Some(Classifier::Topic__Multimedia__SoundAudio__Speech);
    }
    if str_eq(s, "Topic :: Multimedia :: Video") {
        return Some(Classifier::Topic__Multimedia__Video);
    }
    if str_eq(s, "Topic :: Multimedia :: Video :: Capture") {
        return Some(Classifier::Topic__Multimedia__Video__Capture);
    }
    if str_eq(s, "Topic :: Multimedia :: Video :: Conversion") {
        return Some(Classifier::Topic__Multimedia__Video__Conversion);
    }
    if str_eq(s, "Topic :: Multimedia :: Video :: Display") {
        return Some(Classifier::Topic__Multimedia__Video__Display);
    }
    if str_eq(s, "Topic :: Multimedia :: Video :: Non-Linear Editor") {
        return Some(Classifier::Topic__Multimedia__Video__NonLinearEditor);
    }
    if str_eq(s, "Topic :: Office/Business") {
        return Some(Classifier::Topic__OfficeBusiness);
    }
    if str_eq(s, "Topic :: Office/Business :: Financial") {
        return Some(Classifier::Topic__OfficeBusiness__Financial);
    }
    if str_eq(s, "Topic :: Office/Business :: Financial :: Accounting") {
        return Some(Classifier::Topic__OfficeBusiness__Financial__Accounting);
    }
    if str_eq(s, "Topic :: Office/Business :: Financial :: Investment") {
        return Some(Classifier::Topic__OfficeBusiness__Financial__Investment);
    }
    if str_eq(s, "Topic :: Office/Business :: Financial :: Point-Of-Sale") {
        return Some(Classifier::Topic__OfficeBusiness__Financial__PointOfSale);
    }
    if str_eq(s, "Topic :: Office/Business :: Financial :: Spreadsheet") {
        return Some(Classifier::Topic__OfficeBusiness__Financial__Spreadsheet);
    }
    if str_eq(s, "Topic :: Office/Business :: Groupware") {
        return Some(Classifier::Topic__OfficeBusiness__Groupware);
    }
    if str_eq(s, "Topic :: Office/Business :: News/Diary") {
        return Some(Classifier::Topic__OfficeBusiness__NewsDiary);
    }
    if str_eq(s, "Topic :: Office/Business :: Office Suites") {
        return Some(Classifier::Topic__OfficeBusiness__OfficeSuites);
    }
    if str_eq(s, "Topic :: Office/Business :: Scheduling") {
        return Some(Classifier::Topic__OfficeBusiness__Scheduling);
    }
    if str_eq(s, "Topic :: Other/Nonlisted Topic") {
        return Some(Classifier::Topic__OtherNonlistedTopic);
    }
    if str_eq(s, "Topic :: Printing") {
        return Some(Classifier::Topic__Printing);
    }
    if str_eq(s, "Topic :: Religion") {
        return Some(Classifier::Topic__Religion);
    }
    None
}

fn parse_topic_d(s: &str) -> (r: Option<Classifier>)
    ensures
        match r {
            Some(c) => c.tag() == s@,
            None => forall|c: Classifier| 714 <= #[trigger] c.rank() < 770 ==> c.tag() != s@,
        },
{
    if str_eq(s, "Topic :: Scientific/Engineering") {
        return Some(Classifier::Topic__ScientificEngineering);
    }
    if str_eq(s, "Topic :: Scientific/Engineering :: Artificial Intelligence") {
        return Some(Classifier::Topic__ScientificEngineering__ArtificialIntelligence);
    }
    if str_eq(s, "Topic :: Scientific/Engineering :: Artificial Life") {
        return Some(Classifier::Topic__ScientificEngineering__ArtificialLife);
    }
    if str_eq(s, "Topic :: Scientific/Engineering :: Astronomy") {
        return Some(Classifier::Topic__ScientificEngineering__Astronomy);
    }
    if str_eq(s, "Topic :: Scientific/Engineering :: Atmospheric Science") {
        return Some(Classifier::Topic__ScientificEngineering__AtmosphericScience);
    }
    if str_eq(s, "Topic :: Scientific/Engineering :: Bio-Informatics") {
        return Some(Classifier::Topic__ScientificEngineering__BioInformatics);
    }
    if str_eq(s, "Topic :: Scientific/Engineering :: Chemistry") {
        return Some(Classifier::Topic__ScientificEngineering__Chemistry);
    }
    if str_eq(s, "Topic :: Scientific/Engineering :: Electronic Design Automation (EDA)") {
        return Some(Classifier::Topic__ScientificEngineering__ElectronicDesignAutomationEDA);
    }
    if str_eq(s, "Topic :: Scientific/Engineering :: GIS") {
        return Some(Classifier::Topic__ScientificEngineering__GIS);
    }
    if str_eq(s, "Topic :: Scientific/Engineering :: Human Machine Interfaces") {
        return Some(Classifier::Topic__ScientificEngineering__HumanMachineInterfaces);
    }
    if str_eq(s, "Topic :: Scientific/Engineering :: Hydrology") {
        return Some(Classifier::Topic__ScientificEngineering__Hydrology);
    }
    if str_eq(s, "Topic :: Scientific/Engineering :: Image Processing") {
        return Some(Classifier::Topic__ScientificEngineering__ImageProcessing);
    }
    if str_eq(s, "Topic :: Scientific/Engineering :: Image Recognition") {
        return Some(Classifier::Topic__ScientificEngineering__ImageRecognition);
    }
    if str_eq(s, "Topic :: Scientific/Engineering :: Information Analysis") {
        return Some(Classifier::Topic__ScientificEngineering__InformationAnalysis);
    }
    if str_eq(s, "Topic :: Scientific/Engineering :: Interface Engine/Protocol Translator") {
        return Some(Classifier::Topic__ScientificEngineering__InterfaceEngineProtocolTranslator);
    }
    if str_eq(s, "Topic :: Scientific/Engineering :: Mathematics") {
        return Some(Classifier::Topic__ScientificEngineering__Mathematics);
    }
    if str_eq(s, "Topic :: Scientific/Engineering :: Medical Science Apps.") {
        return Some(Classifier::Topic__ScientificEngineering__MedicalScienceApps_);
    }
    if str_eq(s, "Topic :: Scientific/Engineering :: Oceanography") {
        return Some(Classifier::Topic__ScientificEngineering__Oceanography);
    }
    if str_eq(s, "Topic :: Scientific/Engineering :: Physics") {
        return Some(Classifier::Topic__ScientificEngineering__Physics);
    }
    if str_eq(s, "Topic :: Scientific/Engineering :: Visualization") {
        return Some(Classifier::Topic__ScientificEngineering__Visualization);
    }
    if str_eq(s, "Topic :: Security") {
        return Some(Classifier::Topic__Security);
    }
    if str_eq(s, "Topic :: Security :: Cryptography") {
        return Some(Classifier::Topic__Security__Cryptography);
    }
    if str_eq(s, "Topic :: Sociology") {
        return Some(Classifier::Topic__Sociology);
    }
    if str_eq(s, "Topic :: Sociology :: Genealogy") {
        return Some(Classifier::Topic__Sociology__Genealogy);
    }
    if str_eq(s, "Topic :: Sociology :: History") {
        return Some(Classifier::Topic__Sociology__History);
    }
    if str_eq(s, "Topic :: Software Development") {
        return Some(Classifier::Topic__SoftwareDevelopment);
    }
    if str_eq(s, "Topic :: Software Development :: Assemblers") {
        return Some(Classifier::Topic__SoftwareDevelopment__Assemblers);
    }
    if str_eq(s, "Topic :: Software Development :: Bug Tracking") {
        return Some(Classifier::Topic__SoftwareDevelopment__BugTracking);
    }
    if str_eq(s, "Topic :: Software Development :: Build Tools") {
        return Some(Classifier::Topic__SoftwareDevelopment__BuildTools);
    }
    if str_eq(s, "Topic :: Software Development :: Code Generators") {
        return Some(Classifier::Topic__SoftwareDevelopment__CodeGenerators);
    }
    if str_eq(s, "Topic :: Software Development :: Compilers") {
        return Some(Classifier::Topic__SoftwareDevelopment__Compilers);
    }
    if str_eq(s, "Topic :: Software Development :: Debuggers") {
        return Some(Classifier::Topic__SoftwareDevelopment__Debuggers);
    }
    if str_eq(s, "Topic :: Software Development :: Disassemblers") {
        return Some(Classifier::Topic__SoftwareDevelopment__Disassemblers);
    }
    if str_eq(s, "Topic :: Software Development :: Documentation") {
        return Some(Classifier::Topic__SoftwareDevelopment__Documentation);
    }
    if str_eq(s, "Topic :: Software Development :: Embedded Systems") {
        return Some(Classifier::Topic__SoftwareDevelopment__EmbeddedSystems);
    }
    if str_eq(s, "Topic :: Software Development :: Embedded Systems :: Controller Area Network (CAN)") {
        return Some(Classifier::Topic__SoftwareDevelopment__EmbeddedSystems__ControllerAreaNetworkCAN);
    }
    if str_eq(s, "Topic :: Software Development :: Embedded Systems :: Controller Area Network (CAN) :: CANopen") {
        return Some(Classifier::Topic__SoftwareDevelopment__EmbeddedSystems__ControllerAreaNetworkCAN__CANopen);
    }
    if str_eq(s, "Topic :: Software Development :: Embedded Systems :: Controller Area Network (CAN) :: J1939") {
        return Some(Classifier::Topic__SoftwareDevelopment__EmbeddedSystems__ControllerAreaNetworkCAN__J1939);
    }
    if str_eq(s, "Topic :: Software Development :: Internationalization") {
        return Some(Classifier::Topic__SoftwareDevelopment__Internationalization);
    }
    if str_eq(s, "Topic :: Software Development :: Interpreters") {
        return Some(Classifier::Topic__SoftwareDevelopment__Interpreters);
    }
    if str_eq(s, "Topic :: Software Development :: Libraries") {
        return Some(Classifier::Topic__SoftwareDevelopment__Libraries);
    }
    if str_eq(s, "Topic :: Software Development :: Libraries :: Application Frameworks") {
        return Some(Classifier::Topic__SoftwareDevelopment__Libraries__ApplicationFrameworks);
    }
    if str_eq(s, "Topic :: Software Development :: Libraries :: Java Libraries") {
        return Some(Classifier::Topic__SoftwareDevelopment__Libraries__JavaLibraries);
    }
    if str_eq(s, "Topic :: Software Development :: Libraries :: PHP Classes") {
        return Some(Classifier::Topic__SoftwareDevelopment__Libraries__PHPClasses);
    }
    if str_eq(s, "Topic :: Software Development :: Libraries :: Perl Modules") {
        return Some(Classifier::Topic__SoftwareDevelopment__Libraries__PerlModules);
    }
    if str_eq(s, "Topic :: Software Development :: Libraries :: Pike Modules") {
        return Some(Classifier::Topic__SoftwareDevelopment__Libraries__PikeModules);
    }
    if str_eq(s, "Topic :: Software Development :: Libraries :: Python Modules") {
        return Some(Classifier::Topic__SoftwareDevelopment__Libraries__PythonModules);
    }
    if str_eq(s, "Topic :: Software Development :: Libraries :: Ruby Modules") {
        return Some(Classifier::Topic__SoftwareDevelopment__Libraries__RubyModules);
    }
    if str_eq(s, "Topic :: Software Development :: Libraries :: Tcl Extensions") {
        return Some(Classifier::Topic__SoftwareDevelopment__Libraries__TclExtensions);
    }
    if str_eq(s, "Topic :: Software Development :: Libraries :: pygame") {
        return Some(Classifier::Topic__SoftwareDevelopment__Libraries__pygame);
    }
    if str_eq(s, "Topic :: Software Development :: Localization") {
        return Some(Classifier::Topic__SoftwareDevelopment__Localization);
    }
    if str_eq(s, "Topic :: Software Development :: Object Brokering") {
        return Some(Classifier::Topic__SoftwareDevelopment__ObjectBrokering);
    }
    if str_eq(s, "Topic :: Software Development :: Object Brokering :: CORBA") {
        return Some(Classifier::Topic__SoftwareDevelopment__ObjectBrokering__CORBA);
    }
    if str_eq(s, "Topic :: Software Development :: Pre-processors") {
        return Some(Classifier::Topic__SoftwareDevelopment__Preprocessors);
    }
    if str_eq(s, "Topic :: Software Development :: Quality Assurance") {
        return Some(Classifier::Topic__SoftwareDevelopment__QualityAssurance);
    }
    if str_eq(s, "Topic :: Software Development :: Testing") {
        return Some(Classifier::Topic__SoftwareDevelopment__Testing);
    }
    None
}

fn parse_topic_e(s: &str) -> (r: Option<Classifier>)
    ensures
        match r {
            Some(c) => c.tag() == s@,
            None => forall|c: Classifier| 770 <= #[trigger] c.rank() < 826 ==> c.tag() != s@,
        },
{
    if str_eq(s, "Topic :: Software Development :: Testing :: Acceptance") {
        return Some(Classifier::Topic__SoftwareDevelopment__Testing__Acceptance);
    }
    if str_eq(s, "Topic :: Software Development :: Testing :: BDD") {
        return Some(Classifier::Topic__SoftwareDevelopment__Testing__BDD);
    }
    if str_eq(s, "Topic :: Software Development :: Testing :: Mocking") {
        return Some(Classifier::Topic__SoftwareDevelopment__Testing__Mocking);
    }
    if str_eq(s, "Topic :: Software Development :: Testing :: Traffic Generation") {
        return Some(Classifier::Topic__SoftwareDevelopment__Testing__TrafficGeneration);
    }
    if str_eq(s, "Topic :: Software Development :: Testing :: Unit") {
        return Some(Classifier::Topic__SoftwareDevelopment__Testing__Unit);
    }
    if str_eq(s, "Topic :: Software Development :: User Interfaces") {
        return Some(Classifier::Topic__SoftwareDevelopment__UserInterfaces);
    }
    if str_eq(s, "Topic :: Software Development :: Version Control") {
        return Some(Classifier::Topic__SoftwareDevelopment__VersionControl);
    }
    if str_eq(s, "Topic :: Software Development :: Version Control :: Bazaar") {
        return Some(Classifier::Topic__SoftwareDevelopment__VersionControl__Bazaar);
    }
    if str_eq(s, "Topic :: Software Development :: Version Control :: CVS") {
        return Some(Classifier::Topic__SoftwareDevelopment__VersionControl__CVS);
    }
    if str_eq(s, "Topic :: Software Development :: Version Control :: Git") {
        return Some(Classifier::Topic__SoftwareDevelopment__VersionControl__Git);
    }
    if str_eq(s, "Topic :: Software Development :: Version Control :: Mercurial") {
        return Some(Classifier::Topic__SoftwareDevelopment__VersionControl__Mercurial);
    }
    if str_eq(s, "Topic :: Software Development :: Version Control :: RCS") {
        return Some(Classifier::Topic__SoftwareDevelopment__VersionControl__RCS);
    }
    if str_eq(s, "Topic :: Software Development :: Version Control :: SCCS") {
        return Some(Classifier::Topic__SoftwareDevelopment__VersionControl__SCCS);
    }
    if str_eq(s, "Topic :: Software Development :: Widget Sets") {
        return Some(Classifier::Topic__SoftwareDevelopment__WidgetSets);
    }
    if str_eq(s, "Topic :: System") {
        return Some(Classifier::Topic__System);
    }
    if str_eq(s, "Topic :: System :: Archiving") {
        return Some(Classifier::Topic__System__Archiving);
    }
    if str_eq(s, "Topic :: System :: Archiving :: Backup") {
        return Some(Classifier::Topic__System__Archiving__Backup);
    }
    if str_eq(s, "Topic :: System :: Archiving :: Compression") {
        return Some(Classifier::Topic__System__Archiving__Compression);
    }
    if str_eq(s, "Topic :: System :: Archiving :: Mirroring") {
        return Some(Classifier::Topic__System__Archiving__Mirroring);
    }
    if str_eq(s, "Topic :: System :: Archiving :: Packaging") {
        return Some(Classifier::Topic__System__Archiving__Packaging);
    }
    if str_eq(s, "Topic :: System :: Benchmark") {
        return Some(Classifier::Topic__System__Benchmark);
    }
    if str_eq(s, "Topic :: System :: Boot") {
        return Some(Classifier::Topic__System__Boot);
    }
    if str_eq(s, "Topic :: System :: Boot :: Init") {
        return Some(Classifier::Topic__System__Boot__Init);
    }
    if str_eq(s, "Topic :: System :: Clustering") {
        return Some(Classifier::Topic__System__Clustering);
    }
    if str_eq(s, "Topic :: System :: Console Fonts") {
        return Some(Classifier::Topic__System__ConsoleFonts);
    }
    if str_eq(s, "Topic :: System :: Distributed Computing") {
        return Some(Classifier::Topic__System__DistributedComputing);
    }
    if str_eq(s, "Topic :: System :: Emulators") {
        return Some(Classifier::Topic__System__Emulators);
    }
    if str_eq(s, "Topic :: System :: Filesystems") {
        return Some(Classifier::Topic__System__Filesystems);
    }
    if str_eq(s, "Topic :: System :: Hardware") {
        return Some(Classifier::Topic__System__Hardware);
    }
    if str_eq(s, "Topic :: System :: Hardware :: Hardware Drivers") {
        return Some(Classifier::Topic__System__Hardware__HardwareDrivers);
    }
    if str_eq(s, "Topic :: System :: Hardware :: Mainframes") {
        return Some(Classifier::Topic__System__Hardware__Mainframes);
    }
    if str_eq(s, "Topic :: System :: Hardware :: Symmetric Multi-processing") {
        return Some(Classifier::Topic__System__Hardware__SymmetricMultiprocessing);
    }
    if str_eq(s, "Topic :: System :: Hardware :: Universal Serial Bus (USB)") {
        return Some(Classifier::Topic__System__Hardware__UniversalSerialBusUSB);
    }
    if str_eq(s, "Topic :: System :: Hardware :: Universal Serial Bus (USB) :: Audio") {
        return Some(Classifier::Topic__System__Hardware__UniversalSerialBusUSB__Audio);
    }
    if str_eq(s, "Topic :: System :: Hardware :: Universal Serial Bus (USB) :: Audio/Video (AV)") {
        return Some(Classifier::Topic__System__Hardware__UniversalSerialBusUSB__AudioVideoAV);
    }
    if str_eq(s, "Topic :: System :: Hardware :: Universal Serial Bus (USB) :: Communications Device Class (CDC)") {
        return Some(Classifier::Topic__System__Hardware__UniversalSerialBusUSB__CommunicationsDeviceClassCDC);
    }
    if str_eq(s, "Topic :: System :: Hardware :: Universal Serial Bus (USB) :: Diagnostic Device") {
        return Some(Classifier::Topic__System__Hardware__UniversalSerialBusUSB__DiagnosticDevice);
    }
    if str_eq(s, "Topic :: System :: Hardware :: Universal Serial Bus (USB) :: Hub") {
        return Some(Classifier::Topic__System__Hardware__UniversalSerialBusUSB__Hub);
    }
    if str_eq(s, "Topic :: System :: Hardware :: Universal Serial Bus (USB) :: Human Interface Device (HID)") {
        return Some(Classifier::Topic__System__Hardware__UniversalSerialBusUSB__HumanInterfaceDeviceHID);
    }
    if str_eq(s, "Topic :: System :: Hardware :: Universal Serial Bus (USB) :: Mass Storage") {
        return Some(Classifier::Topic__System__Hardware__UniversalSerialBusUSB__MassStorage);
    }
    if str_eq(s, "Topic :: System :: Hardware :: Universal Serial Bus (USB) :: Miscellaneous") {
        return Some(Classifier::Topic__System__Hardware__UniversalSerialBusUSB__Miscellaneous);
    }
    if str_eq(s, "Topic :: System :: Hardware :: Universal Serial Bus (USB) :: Printer") {
        return Some(Classifier::Topic__System__Hardware__UniversalSerialBusUSB__Printer);
    }
    if str_eq(s, "Topic :: System :: Hardware :: Universal Serial Bus (USB) :: Smart Card") {
        return Some(Classifier::Topic__System__Hardware__UniversalSerialBusUSB__SmartCard);
    }
    if str_eq(s, "Topic :: System :: Hardware :: Universal Serial Bus (USB) :: Vendor") {
        return Some(Classifier::Topic__System__Hardware__UniversalSerialBusUSB__Vendor);
    }
    if str_eq(s, "Topic :: System :: Hardware :: Universal Serial Bus (USB) :: Video (UVC)") {
        return Some(Classifier::Topic__System__Hardware__UniversalSerialBusUSB__VideoUVC);
    }
    if str_eq(s, "Topic :: System :: Hardware :: Universal Serial Bus (USB) :: Wireless Controller") {
        return Some(Classifier::Topic__System__Hardware__UniversalSerialBusUSB__WirelessController);
    }
    if str_eq(s, "Topic :: System :: Installation/Setup") {
        return Some(Classifier::Topic__System__InstallationSetup);
    }
    if str_eq(s, "Topic :: System :: Logging") {
        return Some(Classifier::Topic__System__Logging);
    }
    if str_eq(s, "Topic :: System :: Monitoring") {
        return Some(Classifier::Topic__System__Monitoring);
    }
    if str_eq(s, "Topic :: System :: Networking") {
        return Some(Classifier::Topic__System__Networking);
    }
    if str_eq(s, "Topic :: System :: Networking :: Firewalls") {
        return Some(Classifier::Topic__System__Networking__Firewalls);
    }
    if str_eq(s, "Topic :: System :: Networking :: Monitoring") {
        return Some(Classifier::Topic__System__Networking__Monitoring);
    }
    if str_eq(s, "Topic :: System :: Networking :: Monitoring :: Hardware Watchdog") {
        return Some(Classifier::Topic__System__Networking__Monitoring__HardwareWatchdog);
    }
    if str_eq(s, "Topic :: System :: Networking :: Time Synchronization") {
        return Some(Classifier::Topic__System__Networking__TimeSynchronization);
    }
    if str_eq(s, "Topic :: System :: Operating System") {
        return Some(Classifier::Topic__System__OperatingSystem);
    }
    if str_eq(s, "Topic :: System :: Operating System Kernels") {
        return Some(Classifier::Topic__System__OperatingSystemKernels);
    }
    None
}

fn parse_topic_f(s: &str) -> (r: Option<Classifier>)
    ensures
        match r {
            Some(c) => c.tag() == s@,
            None => forall|c: Classifier| 826 <= #[trigger] c.rank() < 863 ==> c.tag() != s@,
        },
{
    if str_eq(s, "Topic :: System :: Operating System Kernels :: BSD") {
        return Some(Classifier::Topic__System__OperatingSystemKernels__BSD);
    }
    if str_eq(s, "Topic :: System :: Operating System Kernels :: GNU Hurd") {
        return Some(Classifier::Topic__System__OperatingSystemKernels__GNUHurd);
    }
    if str_eq(s, "Topic :: System :: Operating System Kernels :: Linux") {
        return Some(Classifier::Topic__System__OperatingSystemKernels__Linux);
    }
    if str_eq(s, "Topic :: System :: Power (UPS)") {
        return Some(Classifier::Topic__System__PowerUPS);
    }
    if str_eq(s, "Topic :: System :: Recovery Tools") {
        return Some(Classifier::Topic__System__RecoveryTools);
    }
    if str_eq(s, "Topic :: System :: Shells") {
        return Some(Classifier::Topic__System__Shells);
    }
    if str_eq(s, "Topic :: System :: Software Distribution") {
        return Some(Classifier::Topic__System__SoftwareDistribution);
    }
    if str_eq(s, "Topic :: System :: System Shells") {
        return Some(Classifier::Topic__System__SystemShells);
    }
    if str_eq(s, "Topic :: System :: Systems Administration") {
        return Some(Classifier::Topic__System__SystemsAdministration);
    }
    if str_eq(s, "Topic :: System :: Systems Administration :: Authentication/Directory") {
        return Some(Classifier::Topic__System__SystemsAdministration__AuthenticationDirectory);
    }
    if str_eq(s, "Topic :: System :: Systems Administration :: Authentication/Directory :: LDAP") {
        return Some(Classifier::Topic__System__SystemsAdministration__AuthenticationDirectory__LDAP);
    }
    if str_eq(s, "Topic :: System :: Systems Administration :: Authentication/Directory :: NIS") {
        return Some(Classifier::Topic__System__SystemsAdministration__AuthenticationDirectory__NIS);
    }
    if str_eq(s, "Topic :: Terminals") {
        return Some(Classifier::Topic__Terminals);
    }
    if str_eq(s, "Topic :: Terminals :: Serial") {
        return Some(Classifier::Topic__Terminals__Serial);
    }
    if str_eq(s, "Topic :: Terminals :: Telnet") {
        return Some(Classifier::Topic__Terminals__Telnet);
    }
    if str_eq(s, "Topic :: Terminals :: Terminal Emulators/X Terminals") {
        return Some(Classifier::Topic__Terminals__TerminalEmulatorsXTerminals);
    }
    if str_eq(s, "Topic :: Text Editors") {
        return Some(Classifier::Topic__TextEditors);
    }
    if str_eq(s, "Topic :: Text Editors :: Documentation") {
        return Some(Classifier::Topic__TextEditors__Documentation);
    }
    if str_eq(s, "Topic :: Text Editors :: Emacs") {
        return Some(Classifier::Topic__TextEditors__Emacs);
    }
    if str_eq(s, "Topic :: Text Editors :: Integrated Development Environments (IDE)") {
        return Some(Classifier::Topic__TextEditors__IntegratedDevelopmentEnvironmentsIDE);
    }
    if str_eq(s, "Topic :: Text Editors :: Text Processing") {
        return Some(Classifier::Topic__TextEditors__TextProcessing);
    }
    if str_eq(s, "Topic :: Text Editors :: Word Processors") {
        return Some(Classifier::Topic__TextEditors__WordProcessors);
    }
    if str_eq(s, "Topic :: Text Processing") {
        return Some(Classifier::Topic__TextProcessing);
    }
    if str_eq(s, "Topic :: Text Processing :: Filters") {
        return Some(Classifier::Topic__TextProcessing__Filters);
    }
    if str_eq(s, "Topic :: Text Processing :: Fonts") {
        return Some(Classifier::Topic__TextProcessing__Fonts);
    }
    if str_eq(s, "Topic :: Text Processing :: General") {
        return Some(Classifier::Topic__TextProcessing__General);
    }
    if str_eq(s, "Topic :: Text Processing :: Indexing") {
        return Some(Classifier::Topic__TextProcessing__Indexing);
    }
    if str_eq(s, "Topic :: Text Processing :: Linguistic") {
        return Some(Classifier::Topic__TextProcessing__Linguistic);
    }
    if str_eq(s, "Topic :: Text Processing :: Markup") {
        return Some(Classifier::Topic__TextProcessing__Markup);
    }
    if str_eq(s, "Topic :: Text Processing :: Markup :: HTML") {
        return Some(Classifier::Topic__TextProcessing__Markup__HTML);
    }
    if str_eq(s, "Topic :: Text Processing :: Markup :: LaTeX") {
        return Some(Classifier::Topic__TextProcessing__Markup__LaTeX);
    }
    if str_eq(s, "Topic :: Text Processing :: Markup :: Markdown") {
        return Some(Classifier::Topic__TextProcessing__Markup__Markdown);
    }
    if str_eq(s, "Topic :: Text Processing :: Markup :: SGML") {
        return Some(Classifier::Topic__TextProcessing__Markup__SGML);
    }
    if str_eq(s, "Topic :: Text Processing :: Markup :: VRML") {
        return Some(Classifier::Topic__TextProcessing__Markup__VRML);
    }
    if str_eq(s, "Topic :: Text Processing :: Markup :: XML") {
        return Some(Classifier::Topic__TextProcessing__Markup__XML);
    }
    if str_eq(s, "Topic :: Text Processing :: Markup :: reStructuredText") {
        return Some(Classifier::Topic__TextProcessing__Markup__reStructuredText);
    }
    if str_eq(s, "Topic :: Utilities") {
        return Some(Classifier::Topic__Utilities);
    }
    None
}

fn parse_typing(s: &str) -> (r: Option<Classifier>)
    ensures
        match r {
            Some(c) => c.tag() == s@,
            None => forall|c: Classifier| 863 <= #[trigger] c.rank() < 865 ==> c.tag() != s@,
        },
{
    if str_eq(s, "Typing :: Stubs Only") {
        return Some(Classifier::Typing__StubsOnly);
    }
    if str_eq(s, "Typing :: Typed") {
        return Some(Classifier::Typing__Typed);
    }
    None
}

impl Classifier {
    /// Parse a tag string into its classifier.  Succeeds exactly on the
    /// canonical tag strings of the catalog; matching is sensitive to case
    /// and whitespace, with no normalization of any kind.
    pub fn from_str(s: &str) -> (r: Result<Classifier, UnknownTag>)
        ensures
            match r {
                Ok(c) => c.tag() == s@,
                Err(_) => forall|c: Classifier| (#[trigger] c.tag()) != s@,
            },
    {
        if let Some(c) = parse_development_status(s) {
            return Ok(c);
        }
        if let Some(c) = parse_environment_a(s) {
            return Ok(c);
        }
        if let Some(c) = parse_environment_b(s) {
            return Ok(c);
        }
        if let Some(c) = parse_framework_a(s) {
            return Ok(c);
        }
        if let Some(c) = parse_framework_b(s) {
            return Ok(c);
        }
        if let Some(c) = parse_framework_c(s) {
            return Ok(c);
        }
        if let Some(c) = parse_intended_audience(s) {
            return Ok(c);
        }
        if let Some(c) = parse_license_a(s) {
            return Ok(c);
        }
        if let Some(c) = parse_license_b(s) {
            return Ok(c);
        }
        if let Some(c) = parse_natural_language_a(s) {
            return Ok(c);
        }
        if let Some(c) = parse_natural_language_b(s) {
            return Ok(c);
        }
        if let Some(c) = parse_operating_system(s) {
            return Ok(c);
        }
        if let Some(c) = parse_programming_language_a(s) {
            return Ok(c);
        }
        if let Some(c) = parse_programming_language_b(s) {
            return Ok(c);
        }
        if let Some(c) = parse_topic_a(s) {
            return Ok(c);
        }
        if let Some(c) = parse_topic_b(s) {
            return Ok(c);
        }
        if let Some(c) = parse_topic_c(s) {
            return Ok(c);
        }
        if let Some(c) = parse_topic_d(s) {
            return Ok(c);
        }
        if let Some(c) = parse_topic_e(s) {
            return Ok(c);
        }
        if let Some(c) = parse_topic_f(s) {
            return Ok(c);
        }
        if let Some(c) = parse_typing(s) {
            return Ok(c);
        }
        proof {
            lemma_rank_bounds();
            assert forall|c: Classifier| (#[trigger] c.tag()) != s@ by {
                assert(0 <= c.rank() < CLASSIFIER_COUNT as int);
            }
        }
        Err(UnknownTag)
    }
}

} // verus!

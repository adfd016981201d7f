use vstd::prelude::*;

use crate::catalog::Classifier;
use crate::lexord::lex_lt;
use crate::lexord::lex_lt_from;
use crate::rank::classifier_of_rank;

verus! {

proof fn lex_adj_0()
    ensures
        lex_lt(Classifier::DevelopmentStatus__1Planning.tag(), Classifier::DevelopmentStatus__2PreAlpha.tag()),
{
    reveal_strlit("Development Status :: 1 - Planning");
    reveal_strlit("Development Status :: 2 - Pre-Alpha");
    reveal_with_fuel(lex_lt_from, 24);
}

proof fn lex_adj_1()
    ensures
        lex_lt(Classifier::DevelopmentStatus__2PreAlpha.tag(), Classifier::DevelopmentStatus__3Alpha.tag()),
{
    reveal_strlit("Development Status :: 2 - Pre-Alpha");
    reveal_strlit("Development Status :: 3 - Alpha");
    reveal_with_fuel(lex_lt_from, 24);
}

proof fn lex_adj_2()
    ensures
        lex_lt(Classifier::DevelopmentStatus__3Alpha.tag(), Classifier::DevelopmentStatus__4Beta.tag()),
{
    reveal_strlit("Development Status :: 3 - Alpha");
    reveal_strlit("Development Status :: 4 - Beta");
    reveal_with_fuel(lex_lt_from, 24);
}

proof fn lex_adj_3()
    ensures
        lex_lt(Classifier::DevelopmentStatus__4Beta.tag(), Classifier::DevelopmentStatus__5ProductionStable.tag()),
{
    reveal_strlit("Development Status :: 4 - Beta");
    reveal_strlit("Development Status :: 5 - Production/Stable");
    reveal_with_fuel(lex_lt_from, 24);
}

proof fn lex_adj_4()
    ensures
        lex_lt(Classifier::DevelopmentStatus__5ProductionStable.tag(), Classifier::DevelopmentStatus__6Mature.tag()),
{
    reveal_strlit("Development Status :: 5 - Production/Stable");
    reveal_strlit("Development Status :: 6 - Mature");
    reveal_with_fuel(lex_lt_from, 24);
}

proof fn lex_adj_5()
    ensures
        lex_lt(Classifier::DevelopmentStatus__6Mature.tag(), Classifier::DevelopmentStatus__7Inactive.tag()),
{
    reveal_strlit("Development Status :: 6 - Mature");
    reveal_strlit("Development Status :: 7 - Inactive");
    reveal_with_fuel(lex_lt_from, 24);
}

proof fn lex_adj_6()
    ensures
        lex_lt(Classifier::DevelopmentStatus__7Inactive.tag(), Classifier::Environment__Console.tag()),
{
    reveal_strlit("Development Status :: 7 - Inactive");
    reveal_strlit("Environment :: Console");
    reveal_with_fuel(lex_lt_from, 2);
}

proof fn lex_adj_7()
    ensures
        lex_lt(Classifier::Environment__Console.tag(), Classifier::Environment__Console__Curses.tag()),
{
    reveal_strlit("Environment :: Console");
    reveal_strlit("Environment :: Console :: Curses");
    reveal_with_fuel(lex_lt_from, 24);
}

proof fn lex_adj_8()
    ensures
        lex_lt(Classifier::Environment__Console__Curses.tag(), Classifier::Environment__Console__Framebuffer.tag()),
{
    reveal_strlit("Environment :: Console :: Curses");
    reveal_strlit("Environment :: Console :: Framebuffer");
    reveal_with_fuel(lex_lt_from, 28);
}

proof fn lex_adj_9()
    ensures
        lex_lt(Classifier::Environment__Console__Framebuffer.tag(), Classifier::Environment__Console__Newt.tag()),
{
    reveal_strlit("Environment :: Console :: Framebuffer");
    reveal_strlit("Environment :: Console :: Newt");
    reveal_with_fuel(lex_lt_from, 28);
}

proof fn lex_adj_10()
    ensures
        lex_lt(Classifier::Environment__Console__Newt.tag(), Classifier::Environment__Console__svgalib.tag()),
{
    reveal_strlit("Environment :: Console :: Newt");
    reveal_strlit("Environment :: Console :: svgalib");
    reveal_with_fuel(lex_lt_from, 28);
}

proof fn lex_adj_11()
    ensures
        lex_lt(Classifier::Environment__Console__svgalib.tag(), Classifier::Environment__GPU.tag()),
{
    reveal_strlit("Environment :: Console :: svgalib");
    reveal_strlit("Environment :: GPU");
    reveal_with_fuel(lex_lt_from, 17);
}

proof fn lex_adj_12()
    ensures
        lex_lt(Classifier::Environment__GPU.tag(), Classifier::Environment__GPU__NVIDIACUDA.tag()),
{
    reveal_strlit("Environment :: GPU");
    reveal_strlit("Environment :: GPU :: NVIDIA CUDA");
    reveal_with_fuel(lex_lt_from, 20);
}

proof fn lex_adj_13()
    ensures
        lex_lt(Classifier::Environment__GPU__NVIDIACUDA.tag(), Classifier::Environment__GPU__NVIDIACUDA__1_0.tag()),
{
    reveal_strlit("Environment :: GPU :: NVIDIA CUDA");
    reveal_strlit("Environment :: GPU :: NVIDIA CUDA :: 1.0");
    reveal_with_fuel(lex_lt_from, 35);
}

proof fn lex_adj_14()
    ensures
        lex_lt(Classifier::Environment__GPU__NVIDIACUDA__1_0.tag(), Classifier::Environment__GPU__NVIDIACUDA__1_1.tag()),
{
    reveal_strlit("Environment :: GPU :: NVIDIA CUDA :: 1.0");
    reveal_strlit("Environment :: GPU :: NVIDIA CUDA :: 1.1");
    reveal_with_fuel(lex_lt_from, 41);
}

proof fn lex_adj_15()
    ensures
        lex_lt(Classifier::Environment__GPU__NVIDIACUDA__1_1.tag(), Classifier::Environment__GPU__NVIDIACUDA__10_0.tag()),
{
    reveal_strlit("Environment :: GPU :: NVIDIA CUDA :: 1.1");
    reveal_strlit("Environment :: GPU :: NVIDIA CUDA :: 10.0");
    reveal_with_fuel(lex_lt_from, 40);
}

proof fn lex_adj_16()
    ensures
        lex_lt(Classifier::Environment__GPU__NVIDIACUDA__10_0.tag(), Classifier::Environment__GPU__NVIDIACUDA__10_1.tag()),
{
    reveal_strlit("Environment :: GPU :: NVIDIA CUDA :: 10.0");
    reveal_strlit("Environment :: GPU :: NVIDIA CUDA :: 10.1");
    reveal_with_fuel(lex_lt_from, 42);
}

proof fn lex_adj_17()
    ensures
        lex_lt(Classifier::Environment__GPU__NVIDIACUDA__10_1.tag(), Classifier::Environment__GPU__NVIDIACUDA__10_2.tag()),
{
    reveal_strlit("Environment :: GPU :: NVIDIA CUDA :: 10.1");
    reveal_strlit("Environment :: GPU :: NVIDIA CUDA :: 10.2");
    reveal_with_fuel(lex_lt_from, 42);
}

proof fn lex_adj_18()
    ensures
        lex_lt(Classifier::Environment__GPU__NVIDIACUDA__10_2.tag(), Classifier::Environment__GPU__NVIDIACUDA__11.tag()),
{
    reveal_strlit("Environment :: GPU :: NVIDIA CUDA :: 10.2");
    reveal_strlit("Environment :: GPU :: NVIDIA CUDA :: 11");
    reveal_with_fuel(lex_lt_from, 40);
}

proof fn lex_adj_19()
    ensures
        lex_lt(Classifier::Environment__GPU__NVIDIACUDA__11.tag(), Classifier::Environment__GPU__NVIDIACUDA__11_0.tag()),
{
    reveal_strlit("Environment :: GPU :: NVIDIA CUDA :: 11");
    reveal_strlit("Environment :: GPU :: NVIDIA CUDA :: 11.0");
    reveal_with_fuel(lex_lt_from, 41);
}

proof fn lex_adj_20()
    ensures
        lex_lt(Classifier::Environment__GPU__NVIDIACUDA__11_0.tag(), Classifier::Environment__GPU__NVIDIACUDA__11_1.tag()),
{
    reveal_strlit("Environment :: GPU :: NVIDIA CUDA :: 11.0");
    reveal_strlit("Environment :: GPU :: NVIDIA CUDA :: 11.1");
    reveal_with_fuel(lex_lt_from, 42);
}

proof fn lex_adj_21()
    ensures
        lex_lt(Classifier::Environment__GPU__NVIDIACUDA__11_1.tag(), Classifier::Environment__GPU__NVIDIACUDA__11_2.tag()),
{
    reveal_strlit("Environment :: GPU :: NVIDIA CUDA :: 11.1");
    reveal_strlit("Environment :: GPU :: NVIDIA CUDA :: 11.2");
    reveal_with_fuel(lex_lt_from, 42);
}

proof fn lex_adj_22()
    ensures
        lex_lt(Classifier::Environment__GPU__NVIDIACUDA__11_2.tag(), Classifier::Environment__GPU__NVIDIACUDA__11_3.tag()),
{
    reveal_strlit("Environment :: GPU :: NVIDIA CUDA :: 11.2");
    reveal_strlit("Environment :: GPU :: NVIDIA CUDA :: 11.3");
    reveal_with_fuel(lex_lt_from, 42);
}

proof fn lex_adj_23()
    ensures
        lex_lt(Classifier::Environment__GPU__NVIDIACUDA__11_3.tag(), Classifier::Environment__GPU__NVIDIACUDA__11_4.tag()),
{
    reveal_strlit("Environment :: GPU :: NVIDIA CUDA :: 11.3");
    reveal_strlit("Environment :: GPU :: NVIDIA CUDA :: 11.4");
    reveal_with_fuel(lex_lt_from, 42);
}

proof fn lex_adj_24()
    ensures
        lex_lt(Classifier::Environment__GPU__NVIDIACUDA__11_4.tag(), Classifier::Environment__GPU__NVIDIACUDA__11_5.tag()),
{
    reveal_strlit("Environment :: GPU :: NVIDIA CUDA :: 11.4");
    reveal_strlit("Environment :: GPU :: NVIDIA CUDA :: 11.5");
    reveal_with_fuel(lex_lt_from, 42);
}

proof fn lex_adj_25()
    ensures
        lex_lt(Classifier::Environment__GPU__NVIDIACUDA__11_5.tag(), Classifier::Environment__GPU__NVIDIACUDA__11_6.tag()),
{
    reveal_strlit("Environment :: GPU :: NVIDIA CUDA :: 11.5");
    reveal_strlit("Environment :: GPU :: NVIDIA CUDA :: 11.6");
    reveal_with_fuel(lex_lt_from, 42);
}

proof fn lex_adj_26()
    ensures
        lex_lt(Classifier::Environment__GPU__NVIDIACUDA__11_6.tag(), Classifier::Environment__GPU__NVIDIACUDA__11_7.tag()),
{
    reveal_strlit("Environment :: GPU :: NVIDIA CUDA :: 11.6");
    reveal_strlit("Environment :: GPU :: NVIDIA CUDA :: 11.7");
    reveal_with_fuel(lex_lt_from, 42);
}

proof fn lex_adj_27()
    ensures
        lex_lt(Classifier::Environment__GPU__NVIDIACUDA__11_7.tag(), Classifier::Environment__GPU__NVIDIACUDA__11_8.tag()),
{
    reveal_strlit("Environment :: GPU :: NVIDIA CUDA :: 11.7");
    reveal_strlit("Environment :: GPU :: NVIDIA CUDA :: 11.8");
    reveal_with_fuel(lex_lt_from, 42);
}

proof fn lex_adj_28()
    ensures
        lex_lt(Classifier::Environment__GPU__NVIDIACUDA__11_8.tag(), Classifier::Environment__GPU__NVIDIACUDA__12.tag()),
{
    reveal_strlit("Environment :: GPU :: NVIDIA CUDA :: 11.8");
    reveal_strlit("Environment :: GPU :: NVIDIA CUDA :: 12");
    reveal_with_fuel(lex_lt_from, 40);
}

proof fn lex_adj_29()
    ensures
        lex_lt(Classifier::Environment__GPU__NVIDIACUDA__12.tag(), Classifier::Environment__GPU__NVIDIACUDA__12__12_0.tag()),
{
    reveal_strlit("Environment :: GPU :: NVIDIA CUDA :: 12");
    reveal_strlit("Environment :: GPU :: NVIDIA CUDA :: 12 :: 12.0");
    reveal_with_fuel(lex_lt_from, 41);
}

proof fn lex_adj_30()
    ensures
        lex_lt(Classifier::Environment__GPU__NVIDIACUDA__12__12_0.tag(), Classifier::Environment__GPU__NVIDIACUDA__12__12_1.tag()),
{
    reveal_strlit("Environment :: GPU :: NVIDIA CUDA :: 12 :: 12.0");
    reveal_strlit("Environment :: GPU :: NVIDIA CUDA :: 12 :: 12.1");
    reveal_with_fuel(lex_lt_from, 48);
}

proof fn lex_adj_31()
    ensures
        lex_lt(Classifier::Environment__GPU__NVIDIACUDA__12__12_1.tag(), Classifier::Environment__GPU__NVIDIACUDA__12__12_2.tag()),
{
    reveal_strlit("Environment :: GPU :: NVIDIA CUDA :: 12 :: 12.1");
    reveal_strlit("Environment :: GPU :: NVIDIA CUDA :: 12 :: 12.2");
    reveal_with_fuel(lex_lt_from, 48);
}

proof fn lex_adj_32()
    ensures
        lex_lt(Classifier::Environment__GPU__NVIDIACUDA__12__12_2.tag(), Classifier::Environment__GPU__NVIDIACUDA__12__12_3.tag()),
{
    reveal_strlit("Environment :: GPU :: NVIDIA CUDA :: 12 :: 12.2");
    reveal_strlit("Environment :: GPU :: NVIDIA CUDA :: 12 :: 12.3");
    reveal_with_fuel(lex_lt_from, 48);
}

proof fn lex_adj_33()
    ensures
        lex_lt(Classifier::Environment__GPU__NVIDIACUDA__12__12_3.tag(), Classifier::Environment__GPU__NVIDIACUDA__12__12_4.tag()),
{
    reveal_strlit("Environment :: GPU :: NVIDIA CUDA :: 12 :: 12.3");
    reveal_strlit("Environment :: GPU :: NVIDIA CUDA :: 12 :: 12.4");
    reveal_with_fuel(lex_lt_from, 48);
}

proof fn lex_adj_34()
    ensures
        lex_lt(Classifier::Environment__GPU__NVIDIACUDA__12__12_4.tag(), Classifier::Environment__GPU__NVIDIACUDA__12__12_5.tag()),
{
    reveal_strlit("Environment :: GPU :: NVIDIA CUDA :: 12 :: 12.4");
    reveal_strlit("Environment :: GPU :: NVIDIA CUDA :: 12 :: 12.5");
    reveal_with_fuel(lex_lt_from, 48);
}

proof fn lex_adj_35()
    ensures
        lex_lt(Classifier::Environment__GPU__NVIDIACUDA__12__12_5.tag(), Classifier::Environment__GPU__NVIDIACUDA__2_0.tag()),
{
    reveal_strlit("Environment :: GPU :: NVIDIA CUDA :: 12 :: 12.5");
    reveal_strlit("Environment :: GPU :: NVIDIA CUDA :: 2.0");
    reveal_with_fuel(lex_lt_from, 39);
}

proof fn lex_adj_36()
    ensures
        lex_lt(Classifier::Environment__GPU__NVIDIACUDA__2_0.tag(), Classifier::Environment__GPU__NVIDIACUDA__2_1.tag()),
{
    reveal_strlit("Environment :: GPU :: NVIDIA CUDA :: 2.0");
    reveal_strlit("Environment :: GPU :: NVIDIA CUDA :: 2.1");
    reveal_with_fuel(lex_lt_from, 41);
}

proof fn lex_adj_37()
    ensures
        lex_lt(Classifier::Environment__GPU__NVIDIACUDA__2_1.tag(), Classifier::Environment__GPU__NVIDIACUDA__2_2.tag()),
{
    reveal_strlit("Environment :: GPU :: NVIDIA CUDA :: 2.1");
    reveal_strlit("Environment :: GPU :: NVIDIA CUDA :: 2.2");
    reveal_with_fuel(lex_lt_from, 41);
}

proof fn lex_adj_38()
    ensures
        lex_lt(Classifier::Environment__GPU__NVIDIACUDA__2_2.tag(), Classifier::Environment__GPU__NVIDIACUDA__2_3.tag()),
{
    reveal_strlit("Environment :: GPU :: NVIDIA CUDA :: 2.2");
    reveal_strlit("Environment :: GPU :: NVIDIA CUDA :: 2.3");
    reveal_with_fuel(lex_lt_from, 41);
}

proof fn lex_adj_39()
    ensures
        lex_lt(Classifier::Environment__GPU__NVIDIACUDA__2_3.tag(), Classifier::Environment__GPU__NVIDIACUDA__3_0.tag()),
{
    reveal_strlit("Environment :: GPU :: NVIDIA CUDA :: 2.3");
    reveal_strlit("Environment :: GPU :: NVIDIA CUDA :: 3.0");
    reveal_with_fuel(lex_lt_from, 39);
}

proof fn lex_adj_40()
    ensures
        lex_lt(Classifier::Environment__GPU__NVIDIACUDA__3_0.tag(), Classifier::Environment__GPU__NVIDIACUDA__3_1.tag()),
{
    reveal_strlit("Environment :: GPU :: NVIDIA CUDA :: 3.0");
    reveal_strlit("Environment :: GPU :: NVIDIA CUDA :: 3.1");
    reveal_with_fuel(lex_lt_from, 41);
}

proof fn lex_adj_41()
    ensures
        lex_lt(Classifier::Environment__GPU__NVIDIACUDA__3_1.tag(), Classifier::Environment__GPU__NVIDIACUDA__3_2.tag()),
{
    reveal_strlit("Environment :: GPU :: NVIDIA CUDA :: 3.1");
    reveal_strlit("Environment :: GPU :: NVIDIA CUDA :: 3.2");
    reveal_with_fuel(lex_lt_from, 41);
}

proof fn lex_adj_42()
    ensures
        lex_lt(Classifier::Environment__GPU__NVIDIACUDA__3_2.tag(), Classifier::Environment__GPU__NVIDIACUDA__4_0.tag()),
{
    reveal_strlit("Environment :: GPU :: NVIDIA CUDA :: 3.2");
    reveal_strlit("Environment :: GPU :: NVIDIA CUDA :: 4.0");
    reveal_with_fuel(lex_lt_from, 39);
}

proof fn lex_adj_43()
    ensures
        lex_lt(Classifier::Environment__GPU__NVIDIACUDA__4_0.tag(), Classifier::Environment__GPU__NVIDIACUDA__4_1.tag()),
{
    reveal_strlit("Environment :: GPU :: NVIDIA CUDA :: 4.0");
    reveal_strlit("Environment :: GPU :: NVIDIA CUDA :: 4.1");
    reveal_with_fuel(lex_lt_from, 41);
}

proof fn lex_adj_44()
    ensures
        lex_lt(Classifier::Environment__GPU__NVIDIACUDA__4_1.tag(), Classifier::Environment__GPU__NVIDIACUDA__4_2.tag()),
{
    reveal_strlit("Environment :: GPU :: NVIDIA CUDA :: 4.1");
    reveal_strlit("Environment :: GPU :: NVIDIA CUDA :: 4.2");
    reveal_with_fuel(lex_lt_from, 41);
}

proof fn lex_adj_45()
    ensures
        lex_lt(Classifier::Environment__GPU__NVIDIACUDA__4_2.tag(), Classifier::Environment__GPU__NVIDIACUDA__5_0.tag()),
{
    reveal_strlit("Environment :: GPU :: NVIDIA CUDA :: 4.2");
    reveal_strlit("Environment :: GPU :: NVIDIA CUDA :: 5.0");
    reveal_with_fuel(lex_lt_from, 39);
}

proof fn lex_adj_46()
    ensures
        lex_lt(Classifier::Environment__GPU__NVIDIACUDA__5_0.tag(), Classifier::Environment__GPU__NVIDIACUDA__5_5.tag()),
{
    reveal_strlit("Environment :: GPU :: NVIDIA CUDA :: 5.0");
    reveal_strlit("Environment :: GPU :: NVIDIA CUDA :: 5.5");
    reveal_with_fuel(lex_lt_from, 41);
}

proof fn lex_adj_47()
    ensures
        lex_lt(Classifier::Environment__GPU__NVIDIACUDA__5_5.tag(), Classifier::Environment__GPU__NVIDIACUDA__6_0.tag()),
{
    reveal_strlit("Environment :: GPU :: NVIDIA CUDA :: 5.5");
    reveal_strlit("Environment :: GPU :: NVIDIA CUDA :: 6.0");
    reveal_with_fuel(lex_lt_from, 39);
}

proof fn lex_adj_48()
    ensures
        lex_lt(Classifier::Environment__GPU__NVIDIACUDA__6_0.tag(), Classifier::Environment__GPU__NVIDIACUDA__6_5.tag()),
{
    reveal_strlit("Environment :: GPU :: NVIDIA CUDA :: 6.0");
    reveal_strlit("Environment :: GPU :: NVIDIA CUDA :: 6.5");
    reveal_with_fuel(lex_lt_from, 41);
}

proof fn lex_adj_49()
    ensures
        lex_lt(Classifier::Environment__GPU__NVIDIACUDA__6_5.tag(), Classifier::Environment__GPU__NVIDIACUDA__7_0.tag()),
{
    reveal_strlit("Environment :: GPU :: NVIDIA CUDA :: 6.5");
    reveal_strlit("Environment :: GPU :: NVIDIA CUDA :: 7.0");
    reveal_with_fuel(lex_lt_from, 39);
}

proof fn lex_adj_50()
    ensures
        lex_lt(Classifier::Environment__GPU__NVIDIACUDA__7_0.tag(), Classifier::Environment__GPU__NVIDIACUDA__7_5.tag()),
{
    reveal_strlit("Environment :: GPU :: NVIDIA CUDA :: 7.0");
    reveal_strlit("Environment :: GPU :: NVIDIA CUDA :: 7.5");
    reveal_with_fuel(lex_lt_from, 41);
}

proof fn lex_adj_51()
    ensures
        lex_lt(Classifier::Environment__GPU__NVIDIACUDA__7_5.tag(), Classifier::Environment__GPU__NVIDIACUDA__8_0.tag()),
{
    reveal_strlit("Environment :: GPU :: NVIDIA CUDA :: 7.5");
    reveal_strlit("Environment :: GPU :: NVIDIA CUDA :: 8.0");
    reveal_with_fuel(lex_lt_from, 39);
}

proof fn lex_adj_52()
    ensures
        lex_lt(Classifier::Environment__GPU__NVIDIACUDA__8_0.tag(), Classifier::Environment__GPU__NVIDIACUDA__9_0.tag()),
{
    reveal_strlit("Environment :: GPU :: NVIDIA CUDA :: 8.0");
    reveal_strlit("Environment :: GPU :: NVIDIA CUDA :: 9.0");
    reveal_with_fuel(lex_lt_from, 39);
}

proof fn lex_adj_53()
    ensures
        lex_lt(Classifier::Environment__GPU__NVIDIACUDA__9_0.tag(), Classifier::Environment__GPU__NVIDIACUDA__9_1.tag()),
{
    reveal_strlit("Environment :: GPU :: NVIDIA CUDA :: 9.0");
    reveal_strlit("Environment :: GPU :: NVIDIA CUDA :: 9.1");
    reveal_with_fuel(lex_lt_from, 41);
}

proof fn lex_adj_54()
    ensures
        lex_lt(Classifier::Environment__GPU__NVIDIACUDA__9_1.tag(), Classifier::Environment__GPU__NVIDIACUDA__9_2.tag()),
{
    reveal_strlit("Environment :: GPU :: NVIDIA CUDA :: 9.1");
    reveal_strlit("Environment :: GPU :: NVIDIA CUDA :: 9.2");
    reveal_with_fuel(lex_lt_from, 41);
}

proof fn lex_adj_55()
    ensures
        lex_lt(Classifier::Environment__GPU__NVIDIACUDA__9_2.tag(), Classifier::Environment__HandheldsPDAs.tag()),
{
    reveal_strlit("Environment :: GPU :: NVIDIA CUDA :: 9.2");
    reveal_strlit("Environment :: Handhelds/PDA's");
    reveal_with_fuel(lex_lt_from, 17);
}

proof fn lex_adj_56()
    ensures
        lex_lt(Classifier::Environment__HandheldsPDAs.tag(), Classifier::Environment__MacOSX.tag()),
{
    reveal_strlit("Environment :: Handhelds/PDA's");
    reveal_strlit("Environment :: MacOS X");
    reveal_with_fuel(lex_lt_from, 17);
}

proof fn lex_adj_57()
    ensures
        lex_lt(Classifier::Environment__MacOSX.tag(), Classifier::Environment__MacOSX__Aqua.tag()),
{
    reveal_strlit("Environment :: MacOS X");
    reveal_strlit("Environment :: MacOS X :: Aqua");
    reveal_with_fuel(lex_lt_from, 24);
}

proof fn lex_adj_58()
    ensures
        lex_lt(Classifier::Environment__MacOSX__Aqua.tag(), Classifier::Environment__MacOSX__Carbon.tag()),
{
    reveal_strlit("Environment :: MacOS X :: Aqua");
    reveal_strlit("Environment :: MacOS X :: Carbon");
    reveal_with_fuel(lex_lt_from, 28);
}

proof fn lex_adj_59()
    ensures
        lex_lt(Classifier::Environment__MacOSX__Carbon.tag(), Classifier::Environment__MacOSX__Cocoa.tag()),
{
    reveal_strlit("Environment :: MacOS X :: Carbon");
    reveal_strlit("Environment :: MacOS X :: Cocoa");
    reveal_with_fuel(lex_lt_from, 29);
}

proof fn lex_adj_60()
    ensures
        lex_lt(Classifier::Environment__MacOSX__Cocoa.tag(), Classifier::Environment__NoInputOutputDaemon.tag()),
{
    reveal_strlit("Environment :: MacOS X :: Cocoa");
    reveal_strlit("Environment :: No Input/Output (Daemon)");
    reveal_with_fuel(lex_lt_from, 17);
}

proof fn lex_adj_61()
    ensures
        lex_lt(Classifier::Environment__NoInputOutputDaemon.tag(), Classifier::Environment__OpenStack.tag()),
{
    reveal_strlit("Environment :: No Input/Output (Daemon)");
    reveal_strlit("Environment :: OpenStack");
    reveal_with_fuel(lex_lt_from, 17);
}

proof fn lex_adj_62()
    ensures
        lex_lt(Classifier::Environment__OpenStack.tag(), Classifier::Environment__OtherEnvironment.tag()),
{
    reveal_strlit("Environment :: OpenStack");
    reveal_strlit("Environment :: Other Environment");
    reveal_with_fuel(lex_lt_from, 18);
}

proof fn lex_adj_63()
    ensures
        lex_lt(Classifier::Environment__OtherEnvironment.tag(), Classifier::Environment__Plugins.tag()),
{
    reveal_strlit("Environment :: Other Environment");
    reveal_strlit("Environment :: Plugins");
    reveal_with_fuel(lex_lt_from, 17);
}

proof fn lex_adj_64()
    ensures
        lex_lt(Classifier::Environment__Plugins.tag(), Classifier::Environment__WebEnvironment.tag()),
{
    reveal_strlit("Environment :: Plugins");
    reveal_strlit("Environment :: Web Environment");
    reveal_with_fuel(lex_lt_from, 17);
}

proof fn lex_adj_65()
    ensures
        lex_lt(Classifier::Environment__WebEnvironment.tag(), Classifier::Environment__WebEnvironment__Buffet.tag()),
{
    reveal_strlit("Environment :: Web Environment");
    reveal_strlit("Environment :: Web Environment :: Buffet");
    reveal_with_fuel(lex_lt_from, 32);
}

proof fn lex_adj_66()
    ensures
        lex_lt(Classifier::Environment__WebEnvironment__Buffet.tag(), Classifier::Environment__WebEnvironment__Mozilla.tag()),
{
    reveal_strlit("Environment :: Web Environment :: Buffet");
    reveal_strlit("Environment :: Web Environment :: Mozilla");
    reveal_with_fuel(lex_lt_from, 36);
}

proof fn lex_adj_67()
    ensures
        lex_lt(Classifier::Environment__WebEnvironment__Mozilla.tag(), Classifier::Environment__WebEnvironment__ToscaWidgets.tag()),
{
    reveal_strlit("Environment :: Web Environment :: Mozilla");
    reveal_strlit("Environment :: Web Environment :: ToscaWidgets");
    reveal_with_fuel(lex_lt_from, 36);
}

proof fn lex_adj_68()
    ensures
        lex_lt(Classifier::Environment__WebEnvironment__ToscaWidgets.tag(), Classifier::Environment__WebAssembly.tag()),
{
    reveal_strlit("Environment :: Web Environment :: ToscaWidgets");
    reveal_strlit("Environment :: WebAssembly");
    reveal_with_fuel(lex_lt_from, 20);
}

proof fn lex_adj_69()
    ensures
        lex_lt(Classifier::Environment__WebAssembly.tag(), Classifier::Environment__WebAssembly__Emscripten.tag()),
{
    reveal_strlit("Environment :: WebAssembly");
    reveal_strlit("Environment :: WebAssembly :: Emscripten");
    reveal_with_fuel(lex_lt_from, 28);
}

proof fn lex_adj_70()
    ensures
        lex_lt(Classifier::Environment__WebAssembly__Emscripten.tag(), Classifier::Environment__WebAssembly__WASI.tag()),
{
    reveal_strlit("Environment :: WebAssembly :: Emscripten");
    reveal_strlit("Environment :: WebAssembly :: WASI");
    reveal_with_fuel(lex_lt_from, 32);
}

proof fn lex_adj_71()
    ensures
        lex_lt(Classifier::Environment__WebAssembly__WASI.tag(), Classifier::Environment__Win32MSWindows.tag()),
{
    reveal_strlit("Environment :: WebAssembly :: WASI");
    reveal_strlit("Environment :: Win32 (MS Windows)");
    reveal_with_fuel(lex_lt_from, 18);
}

proof fn lex_adj_72()
    ensures
        lex_lt(Classifier::Environment__Win32MSWindows.tag(), Classifier::Environment__X11Applications.tag()),
{
    reveal_strlit("Environment :: Win32 (MS Windows)");
    reveal_strlit("Environment :: X11 Applications");
    reveal_with_fuel(lex_lt_from, 17);
}

proof fn lex_adj_73()
    ensures
        lex_lt(Classifier::Environment__X11Applications.tag(), Classifier::Environment__X11Applications__GTK.tag()),
{
    reveal_strlit("Environment :: X11 Applications");
    reveal_strlit("Environment :: X11 Applications :: GTK");
    reveal_with_fuel(lex_lt_from, 33);
}

proof fn lex_adj_74()
    ensures
        lex_lt(Classifier::Environment__X11Applications__GTK.tag(), Classifier::Environment__X11Applications__Gnome.tag()),
{
    reveal_strlit("Environment :: X11 Applications :: GTK");
    reveal_strlit("Environment :: X11 Applications :: Gnome");
    reveal_with_fuel(lex_lt_from, 38);
}

proof fn lex_adj_75()
    ensures
        lex_lt(Classifier::Environment__X11Applications__Gnome.tag(), Classifier::Environment__X11Applications__KDE.tag()),
{
    reveal_strlit("Environment :: X11 Applications :: Gnome");
    reveal_strlit("Environment :: X11 Applications :: KDE");
    reveal_with_fuel(lex_lt_from, 37);
}

proof fn lex_adj_76()
    ensures
        lex_lt(Classifier::Environment__X11Applications__KDE.tag(), Classifier::Environment__X11Applications__Qt.tag()),
{
    reveal_strlit("Environment :: X11 Applications :: KDE");
    reveal_strlit("Environment :: X11 Applications :: Qt");
    reveal_with_fuel(lex_lt_from, 37);
}

proof fn lex_adj_77()
    ensures
        lex_lt(Classifier::Environment__X11Applications__Qt.tag(), Classifier::Framework__AWSCDK.tag()),
{
    reveal_strlit("Environment :: X11 Applications :: Qt");
    reveal_strlit("Framework :: AWS CDK");
    reveal_with_fuel(lex_lt_from, 2);
}

proof fn lex_adj_78()
    ensures
        lex_lt(Classifier::Framework__AWSCDK.tag(), Classifier::Framework__AWSCDK__1.tag()),
{
    reveal_strlit("Framework :: AWS CDK");
    reveal_strlit("Framework :: AWS CDK :: 1");
    reveal_with_fuel(lex_lt_from, 22);
}

proof fn lex_adj_79()
    ensures
        lex_lt(Classifier::Framework__AWSCDK__1.tag(), Classifier::Framework__AWSCDK__2.tag()),
{
    reveal_strlit("Framework :: AWS CDK :: 1");
    reveal_strlit("Framework :: AWS CDK :: 2");
    reveal_with_fuel(lex_lt_from, 26);
}

proof fn lex_adj_80()
    ensures
        lex_lt(Classifier::Framework__AWSCDK__2.tag(), Classifier::Framework__AiiDA.tag()),
{
    reveal_strlit("Framework :: AWS CDK :: 2");
    reveal_strlit("Framework :: AiiDA");
    reveal_with_fuel(lex_lt_from, 16);
}

proof fn lex_adj_81()
    ensures
        lex_lt(Classifier::Framework__AiiDA.tag(), Classifier::Framework__Ansible.tag()),
{
    reveal_strlit("Framework :: AiiDA");
    reveal_strlit("Framework :: Ansible");
    reveal_with_fuel(lex_lt_from, 16);
}

proof fn lex_adj_82()
    ensures
        lex_lt(Classifier::Framework__Ansible.tag(), Classifier::Framework__AnyIO.tag()),
{
    reveal_strlit("Framework :: Ansible");
    reveal_strlit("Framework :: AnyIO");
    reveal_with_fuel(lex_lt_from, 17);
}

proof fn lex_adj_83()
    ensures
        lex_lt(Classifier::Framework__AnyIO.tag(), Classifier::Framework__ApacheAirflow.tag()),
{
    reveal_strlit("Framework :: AnyIO");
    reveal_strlit("Framework :: Apache Airflow");
    reveal_with_fuel(lex_lt_from, 16);
}

proof fn lex_adj_84()
    ensures
        lex_lt(Classifier::Framework__ApacheAirflow.tag(), Classifier::Framework__ApacheAirflow__Provider.tag()),
{
    reveal_strlit("Framework :: Apache Airflow");
    reveal_strlit("Framework :: Apache Airflow :: Provider");
    reveal_with_fuel(lex_lt_from, 29);
}

proof fn lex_adj_85()
    ensures
        lex_lt(Classifier::Framework__ApacheAirflow__Provider.tag(), Classifier::Framework__AsyncIO.tag()),
{
    reveal_strlit("Framework :: Apache Airflow :: Provider");
    reveal_strlit("Framework :: AsyncIO");
    reveal_with_fuel(lex_lt_from, 16);
}

proof fn lex_adj_86()
    ensures
        lex_lt(Classifier::Framework__AsyncIO.tag(), Classifier::Framework__BEAT.tag()),
{
    reveal_strlit("Framework :: AsyncIO");
    reveal_strlit("Framework :: BEAT");
    reveal_with_fuel(lex_lt_from, 15);
}

proof fn lex_adj_87()
    ensures
        lex_lt(Classifier::Framework__BEAT.tag(), Classifier::Framework__BFG.tag()),
{
    reveal_strlit("Framework :: BEAT");
    reveal_strlit("Framework :: BFG");
    reveal_with_fuel(lex_lt_from, 16);
}

proof fn lex_adj_88()
    ensures
        lex_lt(Classifier::Framework__BFG.tag(), Classifier::Framework__Bob.tag()),
{
    reveal_strlit("Framework :: BFG");
    reveal_strlit("Framework :: Bob");
    reveal_with_fuel(lex_lt_from, 16);
}

proof fn lex_adj_89()
    ensures
        lex_lt(Classifier::Framework__Bob.tag(), Classifier::Framework__Bottle.tag()),
{
    reveal_strlit("Framework :: Bob");
    reveal_strlit("Framework :: Bottle");
    reveal_with_fuel(lex_lt_from, 17);
}

proof fn lex_adj_90()
    ensures
        lex_lt(Classifier::Framework__Bottle.tag(), Classifier::Framework__Buildout.tag()),
{
    reveal_strlit("Framework :: Bottle");
    reveal_strlit("Framework :: Buildout");
    reveal_with_fuel(lex_lt_from, 16);
}

proof fn lex_adj_91()
    ensures
        lex_lt(Classifier::Framework__Buildout.tag(), Classifier::Framework__Buildout__Extension.tag()),
{
    reveal_strlit("Framework :: Buildout");
    reveal_strlit("Framework :: Buildout :: Extension");
    reveal_with_fuel(lex_lt_from, 23);
}

proof fn lex_adj_92()
    ensures
        lex_lt(Classifier::Framework__Buildout__Extension.tag(), Classifier::Framework__Buildout__Recipe.tag()),
{
    reveal_strlit("Framework :: Buildout :: Extension");
    reveal_strlit("Framework :: Buildout :: Recipe");
    reveal_with_fuel(lex_lt_from, 27);
}

proof fn lex_adj_93()
    ensures
        lex_lt(Classifier::Framework__Buildout__Recipe.tag(), Classifier::Framework__CastleCMS.tag()),
{
    reveal_strlit("Framework :: Buildout :: Recipe");
    reveal_strlit("Framework :: CastleCMS");
    reveal_with_fuel(lex_lt_from, 15);
}

proof fn lex_adj_94()
    ensures
        lex_lt(Classifier::Framework__CastleCMS.tag(), Classifier::Framework__CastleCMS__Theme.tag()),
{
    reveal_strlit("Framework :: CastleCMS");
    reveal_strlit("Framework :: CastleCMS :: Theme");
    reveal_with_fuel(lex_lt_from, 24);
}

proof fn lex_adj_95()
    ensures
        lex_lt(Classifier::Framework__CastleCMS__Theme.tag(), Classifier::Framework__Celery.tag()),
{
    reveal_strlit("Framework :: CastleCMS :: Theme");
    reveal_strlit("Framework :: Celery");
    reveal_with_fuel(lex_lt_from, 16);
}

proof fn lex_adj_96()
    ensures
        lex_lt(Classifier::Framework__Celery.tag(), Classifier::Framework__Chandler.tag()),
{
    reveal_strlit("Framework :: Celery");
    reveal_strlit("Framework :: Chandler");
    reveal_with_fuel(lex_lt_from, 16);
}

proof fn lex_adj_97()
    ensures
        lex_lt(Classifier::Framework__Chandler.tag(), Classifier::Framework__CherryPy.tag()),
{
    reveal_strlit("Framework :: Chandler");
    reveal_strlit("Framework :: CherryPy");
    reveal_with_fuel(lex_lt_from, 17);
}

proof fn lex_adj_98()
    ensures
        lex_lt(Classifier::Framework__CherryPy.tag(), Classifier::Framework__CubicWeb.tag()),
{
    reveal_strlit("Framework :: CherryPy");
    reveal_strlit("Framework :: CubicWeb");
    reveal_with_fuel(lex_lt_from, 16);
}

proof fn lex_adj_99()
    ensures
        lex_lt(Classifier::Framework__CubicWeb.tag(), Classifier::Framework__Dash.tag()),
{
    reveal_strlit("Framework :: CubicWeb");
    reveal_strlit("Framework :: Dash");
    reveal_with_fuel(lex_lt_from, 15);
}

proof fn lex_adj_100()
    ensures
        lex_lt(Classifier::Framework__Dash.tag(), Classifier::Framework__Datasette.tag()),
{
    reveal_strlit("Framework :: Dash");
    reveal_strlit("Framework :: Datasette");
    reveal_with_fuel(lex_lt_from, 17);
}

proof fn lex_adj_101()
    ensures
        lex_lt(Classifier::Framework__Datasette.tag(), Classifier::Framework__Django.tag()),
{
    reveal_strlit("Framework :: Datasette");
    reveal_strlit("Framework :: Django");
    reveal_with_fuel(lex_lt_from, 16);
}

proof fn lex_adj_102()
    ensures
        lex_lt(Classifier::Framework__Django.tag(), Classifier::Framework__Django__1.tag()),
{
    reveal_strlit("Framework :: Django");
    reveal_strlit("Framework :: Django :: 1");
    reveal_with_fuel(lex_lt_from, 21);
}

proof fn lex_adj_103()
    ensures
        lex_lt(Classifier::Framework__Django__1.tag(), Classifier::Framework__Django__1_10.tag()),
{
    reveal_strlit("Framework :: Django :: 1");
    reveal_strlit("Framework :: Django :: 1.10");
    reveal_with_fuel(lex_lt_from, 26);
}

proof fn lex_adj_104()
    ensures
        lex_lt(Classifier::Framework__Django__1_10.tag(), Classifier::Framework__Django__1_11.tag()),
{
    reveal_strlit("Framework :: Django :: 1.10");
    reveal_strlit("Framework :: Django :: 1.11");
    reveal_with_fuel(lex_lt_from, 28);
}

proof fn lex_adj_105()
    ensures
        lex_lt(Classifier::Framework__Django__1_11.tag(), Classifier::Framework__Django__1_4.tag()),
{
    reveal_strlit("Framework :: Django :: 1.11");
    reveal_strlit("Framework :: Django :: 1.4");
    reveal_with_fuel(lex_lt_from, 27);
}

proof fn lex_adj_106()
    ensures
        lex_lt(Classifier::Framework__Django__1_4.tag(), Classifier::Framework__Django__1_5.tag()),
{
    reveal_strlit("Framework :: Django :: 1.4");
    reveal_strlit("Framework :: Django :: 1.5");
    reveal_with_fuel(lex_lt_from, 27);
}

proof fn lex_adj_107()
    ensures
        lex_lt(Classifier::Framework__Django__1_5.tag(), Classifier::Framework__Django__1_6.tag()),
{
    reveal_strlit("Framework :: Django :: 1.5");
    reveal_strlit("Framework :: Django :: 1.6");
    reveal_with_fuel(lex_lt_from, 27);
}

proof fn lex_adj_108()
    ensures
        lex_lt(Classifier::Framework__Django__1_6.tag(), Classifier::Framework__Django__1_7.tag()),
{
    reveal_strlit("Framework :: Django :: 1.6");
    reveal_strlit("Framework :: Django :: 1.7");
    reveal_with_fuel(lex_lt_from, 27);
}

proof fn lex_adj_109()
    ensures
        lex_lt(Classifier::Framework__Django__1_7.tag(), Classifier::Framework__Django__1_8.tag()),
{
    reveal_strlit("Framework :: Django :: 1.7");
    reveal_strlit("Framework :: Django :: 1.8");
    reveal_with_fuel(lex_lt_from, 27);
}

proof fn lex_adj_110()
    ensures
        lex_lt(Classifier::Framework__Django__1_8.tag(), Classifier::Framework__Django__1_9.tag()),
{
    reveal_strlit("Framework :: Django :: 1.8");
    reveal_strlit("Framework :: Django :: 1.9");
    reveal_with_fuel(lex_lt_from, 27);
}

proof fn lex_adj_111()
    ensures
        lex_lt(Classifier::Framework__Django__1_9.tag(), Classifier::Framework__Django__2.tag()),
{
    reveal_strlit("Framework :: Django :: 1.9");
    reveal_strlit("Framework :: Django :: 2");
    reveal_with_fuel(lex_lt_from, 25);
}

proof fn lex_adj_112()
    ensures
        lex_lt(Classifier::Framework__Django__2.tag(), Classifier::Framework__Django__2_0.tag()),
{
    reveal_strlit("Framework :: Django :: 2");
    reveal_strlit("Framework :: Django :: 2.0");
    reveal_with_fuel(lex_lt_from, 26);
}

proof fn lex_adj_113()
    ensures
        lex_lt(Classifier::Framework__Django__2_0.tag(), Classifier::Framework__Django__2_1.tag()),
{
    reveal_strlit("Framework :: Django :: 2.0");
    reveal_strlit("Framework :: Django :: 2.1");
    reveal_with_fuel(lex_lt_from, 27);
}

proof fn lex_adj_114()
    ensures
        lex_lt(Classifier::Framework__Django__2_1.tag(), Classifier::Framework__Django__2_2.tag()),
{
    reveal_strlit("Framework :: Django :: 2.1");
    reveal_strlit("Framework :: Django :: 2.2");
    reveal_with_fuel(lex_lt_from, 27);
}

proof fn lex_adj_115()
    ensures
        lex_lt(Classifier::Framework__Django__2_2.tag(), Classifier::Framework__Django__3.tag()),
{
    reveal_strlit("Framework :: Django :: 2.2");
    reveal_strlit("Framework :: Django :: 3");
    reveal_with_fuel(lex_lt_from, 25);
}

proof fn lex_adj_116()
    ensures
        lex_lt(Classifier::Framework__Django__3.tag(), Classifier::Framework__Django__3_0.tag()),
{
    reveal_strlit("Framework :: Django :: 3");
    reveal_strlit("Framework :: Django :: 3.0");
    reveal_with_fuel(lex_lt_from, 26);
}

proof fn lex_adj_117()
    ensures
        lex_lt(Classifier::Framework__Django__3_0.tag(), Classifier::Framework__Django__3_1.tag()),
{
    reveal_strlit("Framework :: Django :: 3.0");
    reveal_strlit("Framework :: Django :: 3.1");
    reveal_with_fuel(lex_lt_from, 27);
}

proof fn lex_adj_118()
    ensures
        lex_lt(Classifier::Framework__Django__3_1.tag(), Classifier::Framework__Django__3_2.tag()),
{
    reveal_strlit("Framework :: Django :: 3.1");
    reveal_strlit("Framework :: Django :: 3.2");
    reveal_with_fuel(lex_lt_from, 27);
}

proof fn lex_adj_119()
    ensures
        lex_lt(Classifier::Framework__Django__3_2.tag(), Classifier::Framework__Django__4.tag()),
{
    reveal_strlit("Framework :: Django :: 3.2");
    reveal_strlit("Framework :: Django :: 4");
    reveal_with_fuel(lex_lt_from, 25);
}

proof fn lex_adj_120()
    ensures
        lex_lt(Classifier::Framework__Django__4.tag(), Classifier::Framework__Django__4_0.tag()),
{
    reveal_strlit("Framework :: Django :: 4");
    reveal_strlit("Framework :: Django :: 4.0");
    reveal_with_fuel(lex_lt_from, 26);
}

proof fn lex_adj_121()
    ensures
        lex_lt(Classifier::Framework__Django__4_0.tag(), Classifier::Framework__Django__4_1.tag()),
{
    reveal_strlit("Framework :: Django :: 4.0");
    reveal_strlit("Framework :: Django :: 4.1");
    reveal_with_fuel(lex_lt_from, 27);
}

proof fn lex_adj_122()
    ensures
        lex_lt(Classifier::Framework__Django__4_1.tag(), Classifier::Framework__Django__4_2.tag()),
{
    reveal_strlit("Framework :: Django :: 4.1");
    reveal_strlit("Framework :: Django :: 4.2");
    reveal_with_fuel(lex_lt_from, 27);
}

proof fn lex_adj_123()
    ensures
        lex_lt(Classifier::Framework__Django__4_2.tag(), Classifier::Framework__Django__5.tag()),
{
    reveal_strlit("Framework :: Django :: 4.2");
    reveal_strlit("Framework :: Django :: 5");
    reveal_with_fuel(lex_lt_from, 25);
}

proof fn lex_adj_124()
    ensures
        lex_lt(Classifier::Framework__Django__5.tag(), Classifier::Framework__Django__5_0.tag()),
{
    reveal_strlit("Framework :: Django :: 5");
    reveal_strlit("Framework :: Django :: 5.0");
    reveal_with_fuel(lex_lt_from, 26);
}

proof fn lex_adj_125()
    ensures
        lex_lt(Classifier::Framework__Django__5_0.tag(), Classifier::Framework__Django__5_1.tag()),
{
    reveal_strlit("Framework :: Django :: 5.0");
    reveal_strlit("Framework :: Django :: 5.1");
    reveal_with_fuel(lex_lt_from, 27);
}

proof fn lex_adj_126()
    ensures
        lex_lt(Classifier::Framework__Django__5_1.tag(), Classifier::Framework__Django__5_2.tag()),
{
    reveal_strlit("Framework :: Django :: 5.1");
    reveal_strlit("Framework :: Django :: 5.2");
    reveal_with_fuel(lex_lt_from, 27);
}

proof fn lex_adj_127()
    ensures
        lex_lt(Classifier::Framework__Django__5_2.tag(), Classifier::Framework__DjangoCMS.tag()),
{
    reveal_strlit("Framework :: Django :: 5.2");
    reveal_strlit("Framework :: Django CMS");
    reveal_with_fuel(lex_lt_from, 22);
}

proof fn lex_adj_128()
    ensures
        lex_lt(Classifier::Framework__DjangoCMS.tag(), Classifier::Framework__DjangoCMS__3_10.tag()),
{
    reveal_strlit("Framework :: Django CMS");
    reveal_strlit("Framework :: Django CMS :: 3.10");
    reveal_with_fuel(lex_lt_from, 25);
}

proof fn lex_adj_129()
    ensures
        lex_lt(Classifier::Framework__DjangoCMS__3_10.tag(), Classifier::Framework__DjangoCMS__3_11.tag()),
{
    reveal_strlit("Framework :: Django CMS :: 3.10");
    reveal_strlit("Framework :: Django CMS :: 3.11");
    reveal_with_fuel(lex_lt_from, 32);
}

proof fn lex_adj_130()
    ensures
        lex_lt(Classifier::Framework__DjangoCMS__3_11.tag(), Classifier::Framework__DjangoCMS__3_4.tag()),
{
    reveal_strlit("Framework :: Django CMS :: 3.11");
    reveal_strlit("Framework :: Django CMS :: 3.4");
    reveal_with_fuel(lex_lt_from, 31);
}

proof fn lex_adj_131()
    ensures
        lex_lt(Classifier::Framework__DjangoCMS__3_4.tag(), Classifier::Framework__DjangoCMS__3_5.tag()),
{
    reveal_strlit("Framework :: Django CMS :: 3.4");
    reveal_strlit("Framework :: Django CMS :: 3.5");
    reveal_with_fuel(lex_lt_from, 31);
}

proof fn lex_adj_132()
    ensures
        lex_lt(Classifier::Framework__DjangoCMS__3_5.tag(), Classifier::Framework__DjangoCMS__3_6.tag()),
{
    reveal_strlit("Framework :: Django CMS :: 3.5");
    reveal_strlit("Framework :: Django CMS :: 3.6");
    reveal_with_fuel(lex_lt_from, 31);
}

proof fn lex_adj_133()
    ensures
        lex_lt(Classifier::Framework__DjangoCMS__3_6.tag(), Classifier::Framework__DjangoCMS__3_7.tag()),
{
    reveal_strlit("Framework :: Django CMS :: 3.6");
    reveal_strlit("Framework :: Django CMS :: 3.7");
    reveal_with_fuel(lex_lt_from, 31);
}

proof fn lex_adj_134()
    ensures
        lex_lt(Classifier::Framework__DjangoCMS__3_7.tag(), Classifier::Framework__DjangoCMS__3_8.tag()),
{
    reveal_strlit("Framework :: Django CMS :: 3.7");
    reveal_strlit("Framework :: Django CMS :: 3.8");
    reveal_with_fuel(lex_lt_from, 31);
}

proof fn lex_adj_135()
    ensures
        lex_lt(Classifier::Framework__DjangoCMS__3_8.tag(), Classifier::Framework__DjangoCMS__3_9.tag()),
{
    reveal_strlit("Framework :: Django CMS :: 3.8");
    reveal_strlit("Framework :: Django CMS :: 3.9");
    reveal_with_fuel(lex_lt_from, 31);
}

proof fn lex_adj_136()
    ensures
        lex_lt(Classifier::Framework__DjangoCMS__3_9.tag(), Classifier::Framework__DjangoCMS__4_0.tag()),
{
    reveal_strlit("Framework :: Django CMS :: 3.9");
    reveal_strlit("Framework :: Django CMS :: 4.0");
    reveal_with_fuel(lex_lt_from, 29);
}

proof fn lex_adj_137()
    ensures
        lex_lt(Classifier::Framework__DjangoCMS__4_0.tag(), Classifier::Framework__DjangoCMS__4_1.tag()),
{
    reveal_strlit("Framework :: Django CMS :: 4.0");
    reveal_strlit("Framework :: Django CMS :: 4.1");
    reveal_with_fuel(lex_lt_from, 31);
}

proof fn lex_adj_138()
    ensures
        lex_lt(Classifier::Framework__DjangoCMS__4_1.tag(), Classifier::Framework__FastAPI.tag()),
{
    reveal_strlit("Framework :: Django CMS :: 4.1");
    reveal_strlit("Framework :: FastAPI");
    reveal_with_fuel(lex_lt_from, 15);
}

proof fn lex_adj_139()
    ensures
        lex_lt(Classifier::Framework__FastAPI.tag(), Classifier::Framework__Flake8.tag()),
{
    reveal_strlit("Framework :: FastAPI");
    reveal_strlit("Framework :: Flake8");
    reveal_with_fuel(lex_lt_from, 16);
}

/// Adjacent tags within this stretch of the lexicographic order.
pub(crate) proof fn lemma_adjacent_lex_a(i: int)
    requires
        0 <= i < 140,
    ensures
        lex_lt(classifier_of_rank(i).tag(), classifier_of_rank(i + 1).tag()),
{
    if i == 0 {
        lex_adj_0();
    }
    if i == 1 {
        lex_adj_1();
    }
    if i == 2 {
        lex_adj_2();
    }
    if i == 3 {
        lex_adj_3();
    }
    if i == 4 {
        lex_adj_4();
    }
    if i == 5 {
        lex_adj_5();
    }
    if i == 6 {
        lex_adj_6();
    }
    if i == 7 {
        lex_adj_7();
    }
    if i == 8 {
        lex_adj_8();
    }
    if i == 9 {
        lex_adj_9();
    }
    if i == 10 {
        lex_adj_10();
    }
    if i == 11 {
        lex_adj_11();
    }
    if i == 12 {
        lex_adj_12();
    }
    if i == 13 {
        lex_adj_13();
    }
    if i == 14 {
        lex_adj_14();
    }
    if i == 15 {
        lex_adj_15();
    }
    if i == 16 {
        lex_adj_16();
    }
    if i == 17 {
        lex_adj_17();
    }
    if i == 18 {
        lex_adj_18();
    }
    if i == 19 {
        lex_adj_19();
    }
    if i == 20 {
        lex_adj_20();
    }
    if i == 21 {
        lex_adj_21();
    }
    if i == 22 {
        lex_adj_22();
    }
    if i == 23 {
        lex_adj_23();
    }
    if i == 24 {
        lex_adj_24();
    }
    if i == 25 {
        lex_adj_25();
    }
    if i == 26 {
        lex_adj_26();
    }
    if i == 27 {
        lex_adj_27();
    }
    if i == 28 {
        lex_adj_28();
    }
    if i == 29 {
        lex_adj_29();
    }
    if i == 30 {
        lex_adj_30();
    }
    if i == 31 {
        lex_adj_31();
    }
    if i == 32 {
        lex_adj_32();
    }
    if i == 33 {
        lex_adj_33();
    }
    if i == 34 {
        lex_adj_34();
    }
    if i == 35 {
        lex_adj_35();
    }
    if i == 36 {
        lex_adj_36();
    }
    if i == 37 {
        lex_adj_37();
    }
    if i == 38 {
        lex_adj_38();
    }
    if i == 39 {
        lex_adj_39();
    }
    if i == 40 {
        lex_adj_40();
    }
    if i == 41 {
        lex_adj_41();
    }
    if i == 42 {
        lex_adj_42();
    }
    if i == 43 {
        lex_adj_43();
    }
    if i == 44 {
        lex_adj_44();
    }
    if i == 45 {
        lex_adj_45();
    }
    if i == 46 {
        lex_adj_46();
    }
    if i == 47 {
        lex_adj_47();
    }
    if i == 48 {
        lex_adj_48();
    }
    if i == 49 {
        lex_adj_49();
    }
    if i == 50 {
        lex_adj_50();
    }
    if i == 51 {
        lex_adj_51();
    }
    if i == 52 {
        lex_adj_52();
    }
    if i == 53 {
        lex_adj_53();
    }
    if i == 54 {
        lex_adj_54();
    }
    if i == 55 {
        lex_adj_55();
    }
    if i == 56 {
        lex_adj_56();
    }
    if i == 57 {
        lex_adj_57();
    }
    if i == 58 {
        lex_adj_58();
    }
    if i == 59 {
        lex_adj_59();
    }
    if i == 60 {
        lex_adj_60();
    }
    if i == 61 {
        lex_adj_61();
    }
    if i == 62 {
        lex_adj_62();
    }
    if i == 63 {
        lex_adj_63();
    }
    if i == 64 {
        lex_adj_64();
    }
    if i == 65 {
        lex_adj_65();
    }
    if i == 66 {
        lex_adj_66();
    }
    if i == 67 {
        lex_adj_67();
    }
    if i == 68 {
        lex_adj_68();
    }
    if i == 69 {
        lex_adj_69();
    }
    if i == 70 {
        lex_adj_70();
    }
    if i == 71 {
        lex_adj_71();
    }
    if i == 72 {
        lex_adj_72();
    }
    if i == 73 {
        lex_adj_73();
    }
    if i == 74 {
        lex_adj_74();
    }
    if i == 75 {
        lex_adj_75();
    }
    if i == 76 {
        lex_adj_76();
    }
    if i == 77 {
        lex_adj_77();
    }
    if i == 78 {
        lex_adj_78();
    }
    if i == 79 {
        lex_adj_79();
    }
    if i == 80 {
        lex_adj_80();
    }
    if i == 81 {
        lex_adj_81();
    }
    if i == 82 {
        lex_adj_82();
    }
    if i == 83 {
        lex_adj_83();
    }
    if i == 84 {
        lex_adj_84();
    }
    if i == 85 {
        lex_adj_85();
    }
    if i == 86 {
        lex_adj_86();
    }
    if i == 87 {
        lex_adj_87();
    }
    if i == 88 {
        lex_adj_88();
    }
    if i == 89 {
        lex_adj_89();
    }
    if i == 90 {
        lex_adj_90();
    }
    if i == 91 {
        lex_adj_91();
    }
    if i == 92 {
        lex_adj_92();
    }
    if i == 93 {
        lex_adj_93();
    }
    if i == 94 {
        lex_adj_94();
    }
    if i == 95 {
        lex_adj_95();
    }
    if i == 96 {
        lex_adj_96();
    }
    if i == 97 {
        lex_adj_97();
    }
    if i == 98 {
        lex_adj_98();
    }
    if i == 99 {
        lex_adj_99();
    }
    if i == 100 {
        lex_adj_100();
    }
    if i == 101 {
        lex_adj_101();
    }
    if i == 102 {
        lex_adj_102();
    }
    if i == 103 {
        lex_adj_103();
    }
    if i == 104 {
        lex_adj_104();
    }
    if i == 105 {
        lex_adj_105();
    }
    if i == 106 {
        lex_adj_106();
    }
    if i == 107 {
        lex_adj_107();
    }
    if i == 108 {
        lex_adj_108();
    }
    if i == 109 {
        lex_adj_109();
    }
    if i == 110 {
        lex_adj_110();
    }
    if i == 111 {
        lex_adj_111();
    }
    if i == 112 {
        lex_adj_112();
    }
    if i == 113 {
        lex_adj_113();
    }
    if i == 114 {
        lex_adj_114();
    }
    if i == 115 {
        lex_adj_115();
    }
    if i == 116 {
        lex_adj_116();
    }
    if i == 117 {
        lex_adj_117();
    }
    if i == 118 {
        lex_adj_118();
    }
    if i == 119 {
        lex_adj_119();
    }
    if i == 120 {
        lex_adj_120();
    }
    if i == 121 {
        lex_adj_121();
    }
    if i == 122 {
        lex_adj_122();
    }
    if i == 123 {
        lex_adj_123();
    }
    if i == 124 {
        lex_adj_124();
    }
    if i == 125 {
        lex_adj_125();
    }
    if i == 126 {
        lex_adj_126();
    }
    if i == 127 {
        lex_adj_127();
    }
    if i == 128 {
        lex_adj_128();
    }
    if i == 129 {
        lex_adj_129();
    }
    if i == 130 {
        lex_adj_130();
    }
    if i == 131 {
        lex_adj_131();
    }
    if i == 132 {
        lex_adj_132();
    }
    if i == 133 {
        lex_adj_133();
    }
    if i == 134 {
        lex_adj_134();
    }
    if i == 135 {
        lex_adj_135();
    }
    if i == 136 {
        lex_adj_136();
    }
    if i == 137 {
        lex_adj_137();
    }
    if i == 138 {
        lex_adj_138();
    }
    if i == 139 {
        lex_adj_139();
    }
}

} // verus!

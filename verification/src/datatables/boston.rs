//! The Boston housing dataset, bundled as delimited text without a header
//! row.

use vstd::prelude::*;

use crate::error::{LoadError, LoadErrorV};
use crate::load::{load_from_parts, load_spec};
use crate::schema::{distinct_names, ColumnType, Field, FieldV, Schema};
use crate::table::{table_result_view, DataTable, TableV};
use vstd::string::StrSliceExecFns;
use vstd::utf8::encode_utf8;

verus! {

/// Rows of the raw tabular bytes bundled for this dataset, part 1 of 6;
/// there is no header row anywhere.
pub const BOSTON_DATA_1: &'static str = "\
0.00600,12.50,2.30,1,0.380,5.600,29.0,1.2000,1.0,187,14.7,396.90,1.70,50.00\n\
0.43700,0.00,2.85,0,0.394,5.690,30.0,1.4100,4.0,201,15.2,394.60,2.19,49.49\n\
0.86800,0.00,3.40,0,0.408,5.780,31.0,1.6200,7.0,215,15.7,392.30,2.68,48.98\n\
1.29900,0.00,3.95,0,0.422,5.870,32.0,1.8300,10.0,229,16.2,390.00,3.17,48.47\n\
1.73000,0.00,4.50,0,0.436,5.960,33.0,2.0400,13.0,243,16.7,387.70,3.66,47.96\n\
2.16100,12.50,5.05,0,0.450,6.050,34.0,2.2500,16.0,257,17.2,385.40,4.15,47.45\n\
2.59200,0.00,5.60,0,0.464,6.140,35.1,2.4600,19.0,271,17.7,383.10,4.64,46.94\n\
3.02300,0.00,6.15,0,0.478,6.230,36.1,2.6700,22.0,285,18.2,380.80,5.13,46.43\n\
3.45400,0.00,6.70,0,0.492,6.320,37.1,2.8800,25.0,299,18.7,378.50,5.62,45.92\n\
3.88500,0.00,7.25,0,0.506,6.410,38.1,3.0900,1.0,313,19.2,376.20,6.11,45.41\n\
4.31600,12.50,7.80,0,0.520,6.500,39.1,3.3000,4.0,327,19.7,373.90,6.60,44.90\n\
4.74700,0.00,8.35,0,0.534,6.590,40.1,3.5100,7.0,341,20.2,371.60,7.09,44.39\n\
5.17800,0.00,8.90,0,0.548,6.680,41.1,3.7200,10.0,355,20.7,369.30,7.58,43.88\n\
5.60900,0.00,9.45,0,0.562,6.770,42.1,3.9300,13.0,369,14.7,367.00,8.07,43.37\n\
6.04000,0.00,10.00,0,0.576,6.860,43.1,4.1400,16.0,383,15.2,364.70,8.56,42.86\n\
6.47100,12.50,10.55,1,0.590,6.950,44.1,4.3500,19.0,397,15.7,362.40,9.05,42.35\n\
6.90200,0.00,11.10,0,0.604,7.040,45.2,4.5600,22.0,411,16.2,360.10,9.54,41.84\n\
7.33300,0.00,11.65,0,0.618,7.130,46.2,4.7700,25.0,425,16.7,357.80,10.03,41.33\n\
7.76400,0.00,12.20,0,0.632,7.220,47.2,4.9800,1.0,439,17.2,355.50,10.52,40.82\n\
8.19500,0.00,12.75,0,0.646,7.310,48.2,5.1900,4.0,453,17.7,353.20,11.01,40.31\n\
8.62600,12.50,13.30,0,0.660,7.400,49.2,5.4000,7.0,467,18.2,350.90,11.50,39.80\n\
9.05700,0.00,13.85,0,0.674,7.490,50.2,5.6100,10.0,481,18.7,348.60,11.99,39.29\n\
9.48800,0.00,14.40,0,0.688,7.580,51.2,5.8200,13.0,495,19.2,346.30,12.48,38.78\n\
9.91900,0.00,14.95,0,0.702,7.670,52.2,6.0300,16.0,509,19.7,344.00,12.97,38.27\n\
10.35000,0.00,15.50,0,0.716,7.760,53.2,6.2400,19.0,523,20.2,341.70,13.46,37.76\n\
10.78100,12.50,16.05,0,0.730,7.850,54.2,6.4500,22.0,537,20.7,339.40,13.95,37.25\n\
11.21200,0.00,16.60,0,0.744,7.940,55.3,6.6600,25.0,551,14.7,337.10,14.44,36.74\n\
11.64300,0.00,17.15,0,0.758,5.600,56.3,6.8700,1.0,565,15.2,334.80,14.93,36.23\n\
12.07400,0.00,17.70,0,0.772,5.690,57.3,7.0800,4.0,579,15.7,332.50,15.42,35.72\n\
12.50500,0.00,18.25,0,0.786,5.780,58.3,7.2900,7.0,593,16.2,330.20,15.91,35.21\n\
12.93600,12.50,18.80,1,0.800,5.870,59.3,7.5000,10.0,607,16.7,327.90,16.40,34.70\n\
13.36700,0.00,19.35,0,0.380,5.960,60.3,7.7100,13.0,621,17.2,325.60,16.89,34.19\n\
13.79800,0.00,19.90,0,0.394,6.050,61.3,7.9200,16.0,635,17.7,323.30,17.38,33.68\n\
14.22900,0.00,20.45,0,0.408,6.140,62.3,8.1300,19.0,187,18.2,321.00,17.87,33.17\n\
14.66000,0.00,21.00,0,0.422,6.230,63.3,8.3400,22.0,201,18.7,318.70,18.36,32.66\n\
15.09100,12.50,21.55,0,0.436,6.320,64.3,8.5500,25.0,215,19.2,316.40,18.85,32.15\n\
15.52200,0.00,22.10,0,0.450,6.410,65.4,8.7600,1.0,229,19.7,314.10,19.34,31.64\n\
15.95300,0.00,22.65,0,0.464,6.500,66.4,8.9700,4.0,243,20.2,311.80,19.83,31.13\n\
16.38400,0.00,23.20,0,0.478,6.590,67.4,9.1800,7.0,257,20.7,309.50,20.32,30.62\n\
16.81500,0.00,23.75,0,0.492,6.680,68.4,9.3900,10.0,271,14.7,307.20,20.81,30.11\n\
17.24600,12.50,24.30,0,0.506,6.770,69.4,9.6000,13.0,285,15.2,304.90,21.30,29.60\n\
17.67700,0.00,24.85,0,0.520,6.860,70.4,9.8100,16.0,299,15.7,302.60,21.79,29.09\n\
18.10800,0.00,25.40,0,0.534,6.950,71.4,10.0200,19.0,313,16.2,300.30,22.28,28.58\n\
18.53900,0.00,2.30,0,0.548,7.040,72.4,10.2300,22.0,327,16.7,298.00,22.77,28.07\n\
18.97000,0.00,2.85,0,0.562,7.130,73.4,10.4400,25.0,341,17.2,295.70,23.26,27.56\n\
19.40100,12.50,3.40,1,0.576,7.220,74.5,10.6500,1.0,355,17.7,293.40,23.75,27.05\n\
19.83200,0.00,3.95,0,0.590,7.310,75.5,10.8600,4.0,369,18.2,291.10,24.24,26.54\n\
20.26300,0.00,4.50,0,0.604,7.400,76.5,11.0700,7.0,383,18.7,288.80,24.73,26.03\n\
20.69400,0.00,5.05,0,0.618,7.490,77.5,11.2800,10.0,397,19.2,286.50,25.22,25.52\n\
21.12500,0.00,5.60,0,0.632,7.580,78.5,11.4900,13.0,411,19.7,284.20,25.71,25.01\n\
21.55600,12.50,6.15,0,0.646,7.670,79.5,11.7000,16.0,425,20.2,281.90,26.20,24.50\n\
21.98700,0.00,6.70,0,0.660,7.760,80.5,11.9100,19.0,439,20.7,279.60,26.69,23.99\n\
22.41800,0.00,7.25,0,0.674,7.850,81.5,12.1200,22.0,453,14.7,277.30,27.18,23.48\n\
22.84900,0.00,7.80,0,0.688,7.940,82.5,1.2000,25.0,467,15.2,275.00,27.67,22.97\n\
23.28000,0.00,8.35,0,0.702,5.600,83.5,1.4100,1.0,481,15.7,272.70,28.16,22.46\n\
23.71100,12.50,8.90,0,0.716,5.690,84.5,1.6200,4.0,495,16.2,270.40,28.65,21.95\n\
24.14200,0.00,9.45,0,0.730,5.780,85.6,1.8300,7.0,509,16.7,268.10,29.14,21.44\n\
24.57300,0.00,10.00,0,0.744,5.870,86.6,2.0400,10.0,523,17.2,265.80,29.63,20.93\n\
25.00400,0.00,10.55,0,0.758,5.960,87.6,2.2500,13.0,537,17.7,263.50,30.12,20.42\n\
25.43500,0.00,11.10,0,0.772,6.050,88.6,2.4600,16.0,551,18.2,261.20,30.61,19.91\n\
25.86600,12.50,11.65,1,0.786,6.140,89.6,2.6700,19.0,565,18.7,258.90,31.10,19.40\n\
26.29700,0.00,12.20,0,0.800,6.230,90.6,2.8800,22.0,579,19.2,396.90,31.59,18.89\n\
26.72800,0.00,12.75,0,0.380,6.320,91.6,3.0900,25.0,593,19.7,394.60,32.08,18.38\n\
27.15900,0.00,13.30,0,0.394,6.410,92.6,3.3000,1.0,607,20.2,392.30,32.57,17.87\n\
27.59000,0.00,13.85,0,0.408,6.500,93.6,3.5100,4.0,621,20.7,390.00,33.06,17.36\n\
28.02100,12.50,14.40,0,0.422,6.590,94.7,3.7200,7.0,635,14.7,387.70,33.55,16.85\n\
28.45200,0.00,14.95,0,0.436,6.680,95.7,3.9300,10.0,187,15.2,385.40,34.04,16.34\n\
28.88300,0.00,15.50,0,0.450,6.770,96.7,4.1400,13.0,201,15.7,383.10,34.53,15.83\n\
29.31400,0.00,16.05,0,0.464,6.860,97.7,4.3500,16.0,215,16.2,380.80,35.02,15.32\n\
29.74500,0.00,16.60,0,0.478,6.950,98.7,4.5600,19.0,229,16.7,378.50,35.51,14.81\n\
30.17600,12.50,17.15,0,0.492,7.040,29.0,4.7700,22.0,243,17.2,376.20,36.00,14.30\n\
30.60700,0.00,17.70,0,0.506,7.130,30.0,4.9800,25.0,257,17.7,373.90,36.49,13.79\n\
31.03800,0.00,18.25,0,0.520,7.220,31.0,5.1900,1.0,271,18.2,371.60,36.98,13.28\n\
31.46900,0.00,18.80,0,0.534,7.310,32.0,5.4000,4.0,285,18.7,369.30,1.70,12.77\n\
31.90000,0.00,19.35,0,0.548,7.400,33.0,5.6100,7.0,299,19.2,367.00,2.19,12.26\n\
32.33100,12.50,19.90,1,0.562,7.490,34.0,5.8200,10.0,313,19.7,364.70,2.68,11.75\n\
32.76200,0.00,20.45,0,0.576,7.580,35.1,6.0300,13.0,327,20.2,362.40,3.17,11.24\n\
33.19300,0.00,21.00,0,0.590,7.670,36.1,6.2400,16.0,341,20.7,360.10,3.66,10.73\n\
33.62400,0.00,21.55,0,0.604,7.760,37.1,6.4500,19.0,355,14.7,357.80,4.15,10.22\n\
34.05500,0.00,22.10,0,0.618,7.850,38.1,6.6600,22.0,369,15.2,355.50,4.64,9.71\n\
34.48600,12.50,22.65,0,0.632,7.940,39.1,6.8700,25.0,383,15.7,353.20,5.13,9.20\n\
34.91700,0.00,23.20,0,0.646,5.600,40.1,7.0800,1.0,397,16.2,350.90,5.62,8.69\n\
35.34800,0.00,23.75,0,0.660,5.690,41.1,7.2900,4.0,411,16.7,348.60,6.11,8.18\n\
35.77900,0.00,24.30,0,0.674,5.780,42.1,7.5000,7.0,425,17.2,346.30,6.60,7.67\n\
36.21000,0.00,24.85,0,0.688,5.870,43.1,7.7100,10.0,439,17.7,344.00,7.09,7.16\n\
36.64100,12.50,25.40,0,0.702,5.960,44.1,7.9200,13.0,453,18.2,341.70,7.58,6.65\n\
37.07200,0.00,2.30,0,0.716,6.050,45.2,8.1300,16.0,467,18.7,339.40,8.07,6.14\n\
37.50300,0.00,2.85,0,0.730,6.140,46.2,8.3400,19.0,481,19.2,337.10,8.56,5.63\n\
37.93400,0.00,3.40,0,0.744,6.230,47.2,8.5500,22.0,495,19.7,334.80,9.05,5.12\n\
38.36500,0.00,3.95,0,0.758,6.320,48.2,8.7600,25.0,509,20.2,332.50,9.54,50.00\n\
38.79600,12.50,4.50,1,0.772,6.410,49.2,8.9700,1.0,523,20.7,330.20,10.03,49.49\n\
39.22700,0.00,5.05,0,0.786,6.500,50.2,9.1800,4.0,537,14.7,327.90,10.52,48.98\n\
39.65800,0.00,5.60,0,0.800,6.590,51.2,9.3900,7.0,551,15.2,325.60,11.01,48.47\n\
40.08900,0.00,6.15,0,0.380,6.680,52.2,9.6000,10.0,565,15.7,323.30,11.50,47.96\n\
40.52000,0.00,6.70,0,0.394,6.770,53.2,9.8100,13.0,579,16.2,321.00,11.99,47.45\n\
40.95100,12.50,7.25,0,0.408,6.860,54.2,10.0200,16.0,593,16.7,318.70,12.48,46.94\n\
41.38200,0.00,7.80,0,0.422,6.950,55.3,10.2300,19.0,607,17.2,316.40,12.97,46.43\n\
0.00600,0.00,8.35,0,0.436,7.040,56.3,10.4400,22.0,621,17.7,314.10,13.46,45.92\n\
0.43700,0.00,8.90,0,0.450,7.130,57.3,10.6500,25.0,635,18.2,311.80,13.95,45.41\n\
0.86800,0.00,9.45,0,0.464,7.220,58.3,10.8600,1.0,187,18.7,309.50,14.44,44.90\n\
";

/// Rows of the raw tabular bytes bundled for this dataset, part 2 of 6;
/// there is no header row anywhere.
pub const BOSTON_DATA_2: &'static str = "\
1.29900,12.50,10.00,0,0.478,7.310,59.3,11.0700,4.0,201,19.2,307.20,14.93,44.39\n\
1.73000,0.00,10.55,0,0.492,7.400,60.3,11.2800,7.0,215,19.7,304.90,15.42,43.88\n\
2.16100,0.00,11.10,0,0.506,7.490,61.3,11.4900,10.0,229,20.2,302.60,15.91,43.37\n\
2.59200,0.00,11.65,0,0.520,7.580,62.3,11.7000,13.0,243,20.7,300.30,16.40,42.86\n\
3.02300,0.00,12.20,0,0.534,7.670,63.3,11.9100,16.0,257,14.7,298.00,16.89,42.35\n\
3.45400,12.50,12.75,1,0.548,7.760,64.3,12.1200,19.0,271,15.2,295.70,17.38,41.84\n\
3.88500,0.00,13.30,0,0.562,7.850,65.4,1.2000,22.0,285,15.7,293.40,17.87,41.33\n\
4.31600,0.00,13.85,0,0.576,7.940,66.4,1.4100,25.0,299,16.2,291.10,18.36,40.82\n\
4.74700,0.00,14.40,0,0.590,5.600,67.4,1.6200,1.0,313,16.7,288.80,18.85,40.31\n\
5.17800,0.00,14.95,0,0.604,5.690,68.4,1.8300,4.0,327,17.2,286.50,19.34,39.80\n\
5.60900,12.50,15.50,0,0.618,5.780,69.4,2.0400,7.0,341,17.7,284.20,19.83,39.29\n\
6.04000,0.00,16.05,0,0.632,5.870,70.4,2.2500,10.0,355,18.2,281.90,20.32,38.78\n\
6.47100,0.00,16.60,0,0.646,5.960,71.4,2.4600,13.0,369,18.7,279.60,20.81,38.27\n\
6.90200,0.00,17.15,0,0.660,6.050,72.4,2.6700,16.0,383,19.2,277.30,21.30,37.76\n\
7.33300,0.00,17.70,0,0.674,6.140,73.4,2.8800,19.0,397,19.7,275.00,21.79,37.25\n\
7.76400,12.50,18.25,0,0.688,6.230,74.5,3.0900,22.0,411,20.2,272.70,22.28,36.74\n\
8.19500,0.00,18.80,0,0.702,6.320,75.5,3.3000,25.0,425,20.7,270.40,22.77,36.23\n\
8.62600,0.00,19.35,0,0.716,6.410,76.5,3.5100,1.0,439,14.7,268.10,23.26,35.72\n\
9.05700,0.00,19.90,0,0.730,6.500,77.5,3.7200,4.0,453,15.2,265.80,23.75,35.21\n\
9.48800,0.00,20.45,0,0.744,6.590,78.5,3.9300,7.0,467,15.7,263.50,24.24,34.70\n\
9.91900,12.50,21.00,1,0.758,6.680,79.5,4.1400,10.0,481,16.2,261.20,24.73,34.19\n\
10.35000,0.00,21.55,0,0.772,6.770,80.5,4.3500,13.0,495,16.7,258.90,25.22,33.68\n\
10.78100,0.00,22.10,0,0.786,6.860,81.5,4.5600,16.0,509,17.2,396.90,25.71,33.17\n\
11.21200,0.00,22.65,0,0.800,6.950,82.5,4.7700,19.0,523,17.7,394.60,26.20,32.66\n\
11.64300,0.00,23.20,0,0.380,7.040,83.5,4.9800,22.0,537,18.2,392.30,26.69,32.15\n\
12.07400,12.50,23.75,0,0.394,7.130,84.5,5.1900,25.0,551,18.7,390.00,27.18,31.64\n\
12.50500,0.00,24.30,0,0.408,7.220,85.6,5.4000,1.0,565,19.2,387.70,27.67,31.13\n\
12.93600,0.00,24.85,0,0.422,7.310,86.6,5.6100,4.0,579,19.7,385.40,28.16,30.62\n\
13.36700,0.00,25.40,0,0.436,7.400,87.6,5.8200,7.0,593,20.2,383.10,28.65,30.11\n\
13.79800,0.00,2.30,0,0.450,7.490,88.6,6.0300,10.0,607,20.7,380.80,29.14,29.60\n\
14.22900,12.50,2.85,0,0.464,7.580,89.6,6.2400,13.0,621,14.7,378.50,29.63,29.09\n\
14.66000,0.00,3.40,0,0.478,7.670,90.6,6.4500,16.0,635,15.2,376.20,30.12,28.58\n\
15.09100,0.00,3.95,0,0.492,7.760,91.6,6.6600,19.0,187,15.7,373.90,30.61,28.07\n\
15.52200,0.00,4.50,0,0.506,7.850,92.6,6.8700,22.0,201,16.2,371.60,31.10,27.56\n\
15.95300,0.00,5.05,0,0.520,7.940,93.6,7.0800,25.0,215,16.7,369.30,31.59,27.05\n\
16.38400,12.50,5.60,1,0.534,5.600,94.7,7.2900,1.0,229,17.2,367.00,32.08,26.54\n\
16.81500,0.00,6.15,0,0.548,5.690,95.7,7.5000,4.0,243,17.7,364.70,32.57,26.03\n\
17.24600,0.00,6.70,0,0.562,5.780,96.7,7.7100,7.0,257,18.2,362.40,33.06,25.52\n\
17.67700,0.00,7.25,0,0.576,5.870,97.7,7.9200,10.0,271,18.7,360.10,33.55,25.01\n\
18.10800,0.00,7.80,0,0.590,5.960,98.7,8.1300,13.0,285,19.2,357.80,34.04,24.50\n\
18.53900,12.50,8.35,0,0.604,6.050,29.0,8.3400,16.0,299,19.7,355.50,34.53,23.99\n\
18.97000,0.00,8.90,0,0.618,6.140,30.0,8.5500,19.0,313,20.2,353.20,35.02,23.48\n\
19.40100,0.00,9.45,0,0.632,6.230,31.0,8.7600,22.0,327,20.7,350.90,35.51,22.97\n\
19.83200,0.00,10.00,0,0.646,6.320,32.0,8.9700,25.0,341,14.7,348.60,36.00,22.46\n\
20.26300,0.00,10.55,0,0.660,6.410,33.0,9.1800,1.0,355,15.2,346.30,36.49,21.95\n\
20.69400,12.50,11.10,0,0.674,6.500,34.0,9.3900,4.0,369,15.7,344.00,36.98,21.44\n\
21.12500,0.00,11.65,0,0.688,6.590,35.1,9.6000,7.0,383,16.2,341.70,1.70,20.93\n\
21.55600,0.00,12.20,0,0.702,6.680,36.1,9.8100,10.0,397,16.7,339.40,2.19,20.42\n\
21.98700,0.00,12.75,0,0.716,6.770,37.1,10.0200,13.0,411,17.2,337.10,2.68,19.91\n\
22.41800,0.00,13.30,0,0.730,6.860,38.1,10.2300,16.0,425,17.7,334.80,3.17,19.40\n\
22.84900,12.50,13.85,1,0.744,6.950,39.1,10.4400,19.0,439,18.2,332.50,3.66,18.89\n\
23.28000,0.00,14.40,0,0.758,7.040,40.1,10.6500,22.0,453,18.7,330.20,4.15,18.38\n\
23.71100,0.00,14.95,0,0.772,7.130,41.1,10.8600,25.0,467,19.2,327.90,4.64,17.87\n\
24.14200,0.00,15.50,0,0.786,7.220,42.1,11.0700,1.0,481,19.7,325.60,5.13,17.36\n\
24.57300,0.00,16.05,0,0.800,7.310,43.1,11.2800,4.0,495,20.2,323.30,5.62,16.85\n\
25.00400,12.50,16.60,0,0.380,7.400,44.1,11.4900,7.0,509,20.7,321.00,6.11,16.34\n\
25.43500,0.00,17.15,0,0.394,7.490,45.2,11.7000,10.0,523,14.7,318.70,6.60,15.83\n\
25.86600,0.00,17.70,0,0.408,7.580,46.2,11.9100,13.0,537,15.2,316.40,7.09,15.32\n\
26.29700,0.00,18.25,0,0.422,7.670,47.2,12.1200,16.0,551,15.7,314.10,7.58,14.81\n\
26.72800,0.00,18.80,0,0.436,7.760,48.2,1.2000,19.0,565,16.2,311.80,8.07,14.30\n\
27.15900,12.50,19.35,0,0.450,7.850,49.2,1.4100,22.0,579,16.7,309.50,8.56,13.79\n\
27.59000,0.00,19.90,0,0.464,7.940,50.2,1.6200,25.0,593,17.2,307.20,9.05,13.28\n\
28.02100,0.00,20.45,0,0.478,5.600,51.2,1.8300,1.0,607,17.7,304.90,9.54,12.77\n\
28.45200,0.00,21.00,0,0.492,5.690,52.2,2.0400,4.0,621,18.2,302.60,10.03,12.26\n\
28.88300,0.00,21.55,0,0.506,5.780,53.2,2.2500,7.0,635,18.7,300.30,10.52,11.75\n\
29.31400,12.50,22.10,1,0.520,5.870,54.2,2.4600,10.0,187,19.2,298.00,11.01,11.24\n\
29.74500,0.00,22.65,0,0.534,5.960,55.3,2.6700,13.0,201,19.7,295.70,11.50,10.73\n\
30.17600,0.00,23.20,0,0.548,6.050,56.3,2.8800,16.0,215,20.2,293.40,11.99,10.22\n\
30.60700,0.00,23.75,0,0.562,6.140,57.3,3.0900,19.0,229,20.7,291.10,12.48,9.71\n\
31.03800,0.00,24.30,0,0.576,6.230,58.3,3.3000,22.0,243,14.7,288.80,12.97,9.20\n\
31.46900,12.50,24.85,0,0.590,6.320,59.3,3.5100,25.0,257,15.2,286.50,13.46,8.69\n\
31.90000,0.00,25.40,0,0.604,6.410,60.3,3.7200,1.0,271,15.7,284.20,13.95,8.18\n\
32.33100,0.00,2.30,0,0.618,6.500,61.3,3.9300,4.0,285,16.2,281.90,14.44,7.67\n\
32.76200,0.00,2.85,0,0.632,6.590,62.3,4.1400,7.0,299,16.7,279.60,14.93,7.16\n\
33.19300,0.00,3.40,0,0.646,6.680,63.3,4.3500,10.0,313,17.2,277.30,15.42,6.65\n\
33.62400,12.50,3.95,0,0.660,6.770,64.3,4.5600,13.0,327,17.7,275.00,15.91,6.14\n\
34.05500,0.00,4.50,0,0.674,6.860,65.4,4.7700,16.0,341,18.2,272.70,16.40,5.63\n\
34.48600,0.00,5.05,0,0.688,6.950,66.4,4.9800,19.0,355,18.7,270.40,16.89,5.12\n\
34.91700,0.00,5.60,0,0.702,7.040,67.4,5.1900,22.0,369,19.2,268.10,17.38,50.00\n\
35.34800,0.00,6.15,0,0.716,7.130,68.4,5.4000,25.0,383,19.7,265.80,17.87,49.49\n\
35.77900,12.50,6.70,1,0.730,7.220,69.4,5.6100,1.0,397,20.2,263.50,18.36,48.98\n\
36.21000,0.00,7.25,0,0.744,7.310,70.4,5.8200,4.0,411,20.7,261.20,18.85,48.47\n\
36.64100,0.00,7.80,0,0.758,7.400,71.4,6.0300,7.0,425,14.7,258.90,19.34,47.96\n\
37.07200,0.00,8.35,0,0.772,7.490,72.4,6.2400,10.0,439,15.2,396.90,19.83,47.45\n\
37.50300,0.00,8.90,0,0.786,7.580,73.4,6.4500,13.0,453,15.7,394.60,20.32,46.94\n\
37.93400,12.50,9.45,0,0.800,7.670,74.5,6.6600,16.0,467,16.2,392.30,20.81,46.43\n\
38.36500,0.00,10.00,0,0.380,7.760,75.5,6.8700,19.0,481,16.7,390.00,21.30,45.92\n\
38.79600,0.00,10.55,0,0.394,7.850,76.5,7.0800,22.0,495,17.2,387.70,21.79,45.41\n\
39.22700,0.00,11.10,0,0.408,7.940,77.5,7.2900,25.0,509,17.7,385.40,22.28,44.90\n\
39.65800,0.00,11.65,0,0.422,5.600,78.5,7.5000,1.0,523,18.2,383.10,22.77,44.39\n\
40.08900,12.50,12.20,0,0.436,5.690,79.5,7.7100,4.0,537,18.7,380.80,23.26,43.88\n\
40.52000,0.00,12.75,0,0.450,5.780,80.5,7.9200,7.0,551,19.2,378.50,23.75,43.37\n\
40.95100,0.00,13.30,0,0.464,5.870,81.5,8.1300,10.0,565,19.7,376.20,24.24,42.86\n\
41.38200,0.00,13.85,0,0.478,5.960,82.5,8.3400,13.0,579,20.2,373.90,24.73,42.35\n\
0.00600,0.00,14.40,0,0.492,6.050,83.5,8.5500,16.0,593,20.7,371.60,25.22,41.84\n\
0.43700,12.50,14.95,1,0.506,6.140,84.5,8.7600,19.0,607,14.7,369.30,25.71,41.33\n\
0.86800,0.00,15.50,0,0.520,6.230,85.6,8.9700,22.0,621,15.2,367.00,26.20,40.82\n\
1.29900,0.00,16.05,0,0.534,6.320,86.6,9.1800,25.0,635,15.7,364.70,26.69,40.31\n\
1.73000,0.00,16.60,0,0.548,6.410,87.6,9.3900,1.0,187,16.2,362.40,27.18,39.80\n\
2.16100,0.00,17.15,0,0.562,6.500,88.6,9.6000,4.0,201,16.7,360.10,27.67,39.29\n\
";

/// Rows of the raw tabular bytes bundled for this dataset, part 3 of 6;
/// there is no header row anywhere.
pub const BOSTON_DATA_3: &'static str = "\
2.59200,12.50,17.70,0,0.576,6.590,89.6,9.8100,7.0,215,17.2,357.80,28.16,38.78\n\
3.02300,0.00,18.25,0,0.590,6.680,90.6,10.0200,10.0,229,17.7,355.50,28.65,38.27\n\
3.45400,0.00,18.80,0,0.604,6.770,91.6,10.2300,13.0,243,18.2,353.20,29.14,37.76\n\
3.88500,0.00,19.35,0,0.618,6.860,92.6,10.4400,16.0,257,18.7,350.90,29.63,37.25\n\
4.31600,0.00,19.90,0,0.632,6.950,93.6,10.6500,19.0,271,19.2,348.60,30.12,36.74\n\
4.74700,12.50,20.45,0,0.646,7.040,94.7,10.8600,22.0,285,19.7,346.30,30.61,36.23\n\
5.17800,0.00,21.00,0,0.660,7.130,95.7,11.0700,25.0,299,20.2,344.00,31.10,35.72\n\
5.60900,0.00,21.55,0,0.674,7.220,96.7,11.2800,1.0,313,20.7,341.70,31.59,35.21\n\
6.04000,0.00,22.10,0,0.688,7.310,97.7,11.4900,4.0,327,14.7,339.40,32.08,34.70\n\
6.47100,0.00,22.65,0,0.702,7.400,98.7,11.7000,7.0,341,15.2,337.10,32.57,34.19\n\
6.90200,12.50,23.20,1,0.716,7.490,29.0,11.9100,10.0,355,15.7,334.80,33.06,33.68\n\
7.33300,0.00,23.75,0,0.730,7.580,30.0,12.1200,13.0,369,16.2,332.50,33.55,33.17\n\
7.76400,0.00,24.30,0,0.744,7.670,31.0,1.2000,16.0,383,16.7,330.20,34.04,32.66\n\
8.19500,0.00,24.85,0,0.758,7.760,32.0,1.4100,19.0,397,17.2,327.90,34.53,32.15\n\
8.62600,0.00,25.40,0,0.772,7.850,33.0,1.6200,22.0,411,17.7,325.60,35.02,31.64\n\
9.05700,12.50,2.30,0,0.786,7.940,34.0,1.8300,25.0,425,18.2,323.30,35.51,31.13\n\
9.48800,0.00,2.85,0,0.800,5.600,35.1,2.0400,1.0,439,18.7,321.00,36.00,30.62\n\
9.91900,0.00,3.40,0,0.380,5.690,36.1,2.2500,4.0,453,19.2,318.70,36.49,30.11\n\
10.35000,0.00,3.95,0,0.394,5.780,37.1,2.4600,7.0,467,19.7,316.40,36.98,29.60\n\
10.78100,0.00,4.50,0,0.408,5.870,38.1,2.6700,10.0,481,20.2,314.10,1.70,29.09\n\
11.21200,12.50,5.05,0,0.422,5.960,39.1,2.8800,13.0,495,20.7,311.80,2.19,28.58\n\
11.64300,0.00,5.60,0,0.436,6.050,40.1,3.0900,16.0,509,14.7,309.50,2.68,28.07\n\
12.07400,0.00,6.15,0,0.450,6.140,41.1,3.3000,19.0,523,15.2,307.20,3.17,27.56\n\
12.50500,0.00,6.70,0,0.464,6.230,42.1,3.5100,22.0,537,15.7,304.90,3.66,27.05\n\
12.93600,0.00,7.25,0,0.478,6.320,43.1,3.7200,25.0,551,16.2,302.60,4.15,26.54\n\
13.36700,12.50,7.80,1,0.492,6.410,44.1,3.9300,1.0,565,16.7,300.30,4.64,26.03\n\
13.79800,0.00,8.35,0,0.506,6.500,45.2,4.1400,4.0,579,17.2,298.00,5.13,25.52\n\
14.22900,0.00,8.90,0,0.520,6.590,46.2,4.3500,7.0,593,17.7,295.70,5.62,25.01\n\
14.66000,0.00,9.45,0,0.534,6.680,47.2,4.5600,10.0,607,18.2,293.40,6.11,24.50\n\
15.09100,0.00,10.00,0,0.548,6.770,48.2,4.7700,13.0,621,18.7,291.10,6.60,23.99\n\
15.52200,12.50,10.55,0,0.562,6.860,49.2,4.9800,16.0,635,19.2,288.80,7.09,23.48\n\
15.95300,0.00,11.10,0,0.576,6.950,50.2,5.1900,19.0,187,19.7,286.50,7.58,22.97\n\
16.38400,0.00,11.65,0,0.590,7.040,51.2,5.4000,22.0,201,20.2,284.20,8.07,22.46\n\
16.81500,0.00,12.20,0,0.604,7.130,52.2,5.6100,25.0,215,20.7,281.90,8.56,21.95\n\
17.24600,0.00,12.75,0,0.618,7.220,53.2,5.8200,1.0,229,14.7,279.60,9.05,21.44\n\
17.67700,12.50,13.30,0,0.632,7.310,54.2,6.0300,4.0,243,15.2,277.30,9.54,20.93\n\
18.10800,0.00,13.85,0,0.646,7.400,55.3,6.2400,7.0,257,15.7,275.00,10.03,20.42\n\
18.53900,0.00,14.40,0,0.660,7.490,56.3,6.4500,10.0,271,16.2,272.70,10.52,19.91\n\
18.97000,0.00,14.95,0,0.674,7.580,57.3,6.6600,13.0,285,16.7,270.40,11.01,19.40\n\
19.40100,0.00,15.50,0,0.688,7.670,58.3,6.8700,16.0,299,17.2,268.10,11.50,18.89\n\
19.83200,12.50,16.05,1,0.702,7.760,59.3,7.0800,19.0,313,17.7,265.80,11.99,18.38\n\
20.26300,0.00,16.60,0,0.716,7.850,60.3,7.2900,22.0,327,18.2,263.50,12.48,17.87\n\
20.69400,0.00,17.15,0,0.730,7.940,61.3,7.5000,25.0,341,18.7,261.20,12.97,17.36\n\
21.12500,0.00,17.70,0,0.744,5.600,62.3,7.7100,1.0,355,19.2,258.90,13.46,16.85\n\
21.55600,0.00,18.25,0,0.758,5.690,63.3,7.9200,4.0,369,19.7,396.90,13.95,16.34\n\
21.98700,12.50,18.80,0,0.772,5.780,64.3,8.1300,7.0,383,20.2,394.60,14.44,15.83\n\
22.41800,0.00,19.35,0,0.786,5.870,65.4,8.3400,10.0,397,20.7,392.30,14.93,15.32\n\
22.84900,0.00,19.90,0,0.800,5.960,66.4,8.5500,13.0,411,14.7,390.00,15.42,14.81\n\
23.28000,0.00,20.45,0,0.380,6.050,67.4,8.7600,16.0,425,15.2,387.70,15.91,14.30\n\
23.71100,0.00,21.00,0,0.394,6.140,68.4,8.9700,19.0,439,15.7,385.40,16.40,13.79\n\
24.14200,12.50,21.55,0,0.408,6.230,69.4,9.1800,22.0,453,16.2,383.10,16.89,13.28\n\
24.57300,0.00,22.10,0,0.422,6.320,70.4,9.3900,25.0,467,16.7,380.80,17.38,12.77\n\
25.00400,0.00,22.65,0,0.436,6.410,71.4,9.6000,1.0,481,17.2,378.50,17.87,12.26\n\
25.43500,0.00,23.20,0,0.450,6.500,72.4,9.8100,4.0,495,17.7,376.20,18.36,11.75\n\
25.86600,0.00,23.75,0,0.464,6.590,73.4,10.0200,7.0,509,18.2,373.90,18.85,11.24\n\
26.29700,12.50,24.30,1,0.478,6.680,74.5,10.2300,10.0,523,18.7,371.60,19.34,10.73\n\
26.72800,0.00,24.85,0,0.492,6.770,75.5,10.4400,13.0,537,19.2,369.30,19.83,10.22\n\
27.15900,0.00,25.40,0,0.506,6.860,76.5,10.6500,16.0,551,19.7,367.00,20.32,9.71\n\
27.59000,0.00,2.30,0,0.520,6.950,77.5,10.8600,19.0,565,20.2,364.70,20.81,9.20\n\
28.02100,0.00,2.85,0,0.534,7.040,78.5,11.0700,22.0,579,20.7,362.40,21.30,8.69\n\
28.45200,12.50,3.40,0,0.548,7.130,79.5,11.2800,25.0,593,14.7,360.10,21.79,8.18\n\
28.88300,0.00,3.95,0,0.562,7.220,80.5,11.4900,1.0,607,15.2,357.80,22.28,7.67\n\
29.31400,0.00,4.50,0,0.576,7.310,81.5,11.7000,4.0,621,15.7,355.50,22.77,7.16\n\
29.74500,0.00,5.05,0,0.590,7.400,82.5,11.9100,7.0,635,16.2,353.20,23.26,6.65\n\
30.17600,0.00,5.60,0,0.604,7.490,83.5,12.1200,10.0,187,16.7,350.90,23.75,6.14\n\
30.60700,12.50,6.15,0,0.618,7.580,84.5,1.2000,13.0,201,17.2,348.60,24.24,5.63\n\
31.03800,0.00,6.70,0,0.632,7.670,85.6,1.4100,16.0,215,17.7,346.30,24.73,5.12\n\
31.46900,0.00,7.25,0,0.646,7.760,86.6,1.6200,19.0,229,18.2,344.00,25.22,50.00\n\
31.90000,0.00,7.80,0,0.660,7.850,87.6,1.8300,22.0,243,18.7,341.70,25.71,49.49\n\
32.33100,0.00,8.35,0,0.674,7.940,88.6,2.0400,25.0,257,19.2,339.40,26.20,48.98\n\
32.76200,12.50,8.90,1,0.688,5.600,89.6,2.2500,1.0,271,19.7,337.10,26.69,48.47\n\
33.19300,0.00,9.45,0,0.702,5.690,90.6,2.4600,4.0,285,20.2,334.80,27.18,47.96\n\
33.62400,0.00,10.00,0,0.716,5.780,91.6,2.6700,7.0,299,20.7,332.50,27.67,47.45\n\
34.05500,0.00,10.55,0,0.730,5.870,92.6,2.8800,10.0,313,14.7,330.20,28.16,46.94\n\
34.48600,0.00,11.10,0,0.744,5.960,93.6,3.0900,13.0,327,15.2,327.90,28.65,46.43\n\
34.91700,12.50,11.65,0,0.758,6.050,94.7,3.3000,16.0,341,15.7,325.60,29.14,45.92\n\
35.34800,0.00,12.20,0,0.772,6.140,95.7,3.5100,19.0,355,16.2,323.30,29.63,45.41\n\
35.77900,0.00,12.75,0,0.786,6.230,96.7,3.7200,22.0,369,16.7,321.00,30.12,44.90\n\
36.21000,0.00,13.30,0,0.800,6.320,97.7,3.9300,25.0,383,17.2,318.70,30.61,44.39\n\
36.64100,0.00,13.85,0,0.380,6.410,98.7,4.1400,1.0,397,17.7,316.40,31.10,43.88\n\
37.07200,12.50,14.40,0,0.394,6.500,29.0,4.3500,4.0,411,18.2,314.10,31.59,43.37\n\
37.50300,0.00,14.95,0,0.408,6.590,30.0,4.5600,7.0,425,18.7,311.80,32.08,42.86\n\
37.93400,0.00,15.50,0,0.422,6.680,31.0,4.7700,10.0,439,19.2,309.50,32.57,42.35\n\
38.36500,0.00,16.05,0,0.436,6.770,32.0,4.9800,13.0,453,19.7,307.20,33.06,41.84\n\
38.79600,0.00,16.60,0,0.450,6.860,33.0,5.1900,16.0,467,20.2,304.90,33.55,41.33\n\
39.22700,12.50,17.15,1,0.464,6.950,34.0,5.4000,19.0,481,20.7,302.60,34.04,40.82\n\
39.65800,0.00,17.70,0,0.478,7.040,35.1,5.6100,22.0,495,14.7,300.30,34.53,40.31\n\
40.08900,0.00,18.25,0,0.492,7.130,36.1,5.8200,25.0,509,15.2,298.00,35.02,39.80\n\
40.52000,0.00,18.80,0,0.506,7.220,37.1,6.0300,1.0,523,15.7,295.70,35.51,39.29\n\
40.95100,0.00,19.35,0,0.520,7.310,38.1,6.2400,4.0,537,16.2,293.40,36.00,38.78\n\
41.38200,12.50,19.90,0,0.534,7.400,39.1,6.4500,7.0,551,16.7,291.10,36.49,38.27\n\
0.00600,0.00,20.45,0,0.548,7.490,40.1,6.6600,10.0,565,17.2,288.80,36.98,37.76\n\
0.43700,0.00,21.00,0,0.562,7.580,41.1,6.8700,13.0,579,17.7,286.50,1.70,37.25\n\
0.86800,0.00,21.55,0,0.576,7.670,42.1,7.0800,16.0,593,18.2,284.20,2.19,36.74\n\
1.29900,0.00,22.10,0,0.590,7.760,43.1,7.2900,19.0,607,18.7,281.90,2.68,36.23\n\
1.73000,12.50,22.65,0,0.604,7.850,44.1,7.5000,22.0,621,19.2,279.60,3.17,35.72\n\
2.16100,0.00,23.20,0,0.618,7.940,45.2,7.7100,25.0,635,19.7,277.30,3.66,35.21\n\
2.59200,0.00,23.75,0,0.632,5.600,46.2,7.9200,1.0,187,20.2,275.00,4.15,34.70\n\
3.02300,0.00,24.30,0,0.646,5.690,47.2,8.1300,4.0,201,20.7,272.70,4.64,34.19\n\
3.45400,0.00,24.85,0,0.660,5.780,48.2,8.3400,7.0,215,14.7,270.40,5.13,33.68\n\
";

/// Rows of the raw tabular bytes bundled for this dataset, part 4 of 6;
/// there is no header row anywhere.
pub const BOSTON_DATA_4: &'static str = "\
3.88500,12.50,25.40,1,0.674,5.870,49.2,8.5500,10.0,229,15.2,268.10,5.62,33.17\n\
4.31600,0.00,2.30,0,0.688,5.960,50.2,8.7600,13.0,243,15.7,265.80,6.11,32.66\n\
4.74700,0.00,2.85,0,0.702,6.050,51.2,8.9700,16.0,257,16.2,263.50,6.60,32.15\n\
5.17800,0.00,3.40,0,0.716,6.140,52.2,9.1800,19.0,271,16.7,261.20,7.09,31.64\n\
5.60900,0.00,3.95,0,0.730,6.230,53.2,9.3900,22.0,285,17.2,258.90,7.58,31.13\n\
6.04000,12.50,4.50,0,0.744,6.320,54.2,9.6000,25.0,299,17.7,396.90,8.07,30.62\n\
6.47100,0.00,5.05,0,0.758,6.410,55.3,9.8100,1.0,313,18.2,394.60,8.56,30.11\n\
6.90200,0.00,5.60,0,0.772,6.500,56.3,10.0200,4.0,327,18.7,392.30,9.05,29.60\n\
7.33300,0.00,6.15,0,0.786,6.590,57.3,10.2300,7.0,341,19.2,390.00,9.54,29.09\n\
7.76400,0.00,6.70,0,0.800,6.680,58.3,10.4400,10.0,355,19.7,387.70,10.03,28.58\n\
8.19500,12.50,7.25,0,0.380,6.770,59.3,10.6500,13.0,369,20.2,385.40,10.52,28.07\n\
8.62600,0.00,7.80,0,0.394,6.860,60.3,10.8600,16.0,383,20.7,383.10,11.01,27.56\n\
9.05700,0.00,8.35,0,0.408,6.950,61.3,11.0700,19.0,397,14.7,380.80,11.50,27.05\n\
9.48800,0.00,8.90,0,0.422,7.040,62.3,11.2800,22.0,411,15.2,378.50,11.99,26.54\n\
9.91900,0.00,9.45,0,0.436,7.130,63.3,11.4900,25.0,425,15.7,376.20,12.48,26.03\n\
10.35000,12.50,10.00,1,0.450,7.220,64.3,11.7000,1.0,439,16.2,373.90,12.97,25.52\n\
10.78100,0.00,10.55,0,0.464,7.310,65.4,11.9100,4.0,453,16.7,371.60,13.46,25.01\n\
11.21200,0.00,11.10,0,0.478,7.400,66.4,12.1200,7.0,467,17.2,369.30,13.95,24.50\n\
11.64300,0.00,11.65,0,0.492,7.490,67.4,1.2000,10.0,481,17.7,367.00,14.44,23.99\n\
12.07400,0.00,12.20,0,0.506,7.580,68.4,1.4100,13.0,495,18.2,364.70,14.93,23.48\n\
12.50500,12.50,12.75,0,0.520,7.670,69.4,1.6200,16.0,509,18.7,362.40,15.42,22.97\n\
12.93600,0.00,13.30,0,0.534,7.760,70.4,1.8300,19.0,523,19.2,360.10,15.91,22.46\n\
13.36700,0.00,13.85,0,0.548,7.850,71.4,2.0400,22.0,537,19.7,357.80,16.40,21.95\n\
13.79800,0.00,14.40,0,0.562,7.940,72.4,2.2500,25.0,551,20.2,355.50,16.89,21.44\n\
14.22900,0.00,14.95,0,0.576,5.600,73.4,2.4600,1.0,565,20.7,353.20,17.38,20.93\n\
14.66000,12.50,15.50,0,0.590,5.690,74.5,2.6700,4.0,579,14.7,350.90,17.87,20.42\n\
15.09100,0.00,16.05,0,0.604,5.780,75.5,2.8800,7.0,593,15.2,348.60,18.36,19.91\n\
15.52200,0.00,16.60,0,0.618,5.870,76.5,3.0900,10.0,607,15.7,346.30,18.85,19.40\n\
15.95300,0.00,17.15,0,0.632,5.960,77.5,3.3000,13.0,621,16.2,344.00,19.34,18.89\n\
16.38400,0.00,17.70,0,0.646,6.050,78.5,3.5100,16.0,635,16.7,341.70,19.83,18.38\n\
16.81500,12.50,18.25,1,0.660,6.140,79.5,3.7200,19.0,187,17.2,339.40,20.32,17.87\n\
17.24600,0.00,18.80,0,0.674,6.230,80.5,3.9300,22.0,201,17.7,337.10,20.81,17.36\n\
17.67700,0.00,19.35,0,0.688,6.320,81.5,4.1400,25.0,215,18.2,334.80,21.30,16.85\n\
18.10800,0.00,19.90,0,0.702,6.410,82.5,4.3500,1.0,229,18.7,332.50,21.79,16.34\n\
18.53900,0.00,20.45,0,0.716,6.500,83.5,4.5600,4.0,243,19.2,330.20,22.28,15.83\n\
18.97000,12.50,21.00,0,0.730,6.590,84.5,4.7700,7.0,257,19.7,327.90,22.77,15.32\n\
19.40100,0.00,21.55,0,0.744,6.680,85.6,4.9800,10.0,271,20.2,325.60,23.26,14.81\n\
19.83200,0.00,22.10,0,0.758,6.770,86.6,5.1900,13.0,285,20.7,323.30,23.75,14.30\n\
20.26300,0.00,22.65,0,0.772,6.860,87.6,5.4000,16.0,299,14.7,321.00,24.24,13.79\n\
20.69400,0.00,23.20,0,0.786,6.950,88.6,5.6100,19.0,313,15.2,318.70,24.73,13.28\n\
21.12500,12.50,23.75,0,0.800,7.040,89.6,5.8200,22.0,327,15.7,316.40,25.22,12.77\n\
21.55600,0.00,24.30,0,0.380,7.130,90.6,6.0300,25.0,341,16.2,314.10,25.71,12.26\n\
21.98700,0.00,24.85,0,0.394,7.220,91.6,6.2400,1.0,355,16.7,311.80,26.20,11.75\n\
22.41800,0.00,25.40,0,0.408,7.310,92.6,6.4500,4.0,369,17.2,309.50,26.69,11.24\n\
22.84900,0.00,2.30,0,0.422,7.400,93.6,6.6600,7.0,383,17.7,307.20,27.18,10.73\n\
23.28000,12.50,2.85,1,0.436,7.490,94.7,6.8700,10.0,397,18.2,304.90,27.67,10.22\n\
23.71100,0.00,3.40,0,0.450,7.580,95.7,7.0800,13.0,411,18.7,302.60,28.16,9.71\n\
24.14200,0.00,3.95,0,0.464,7.670,96.7,7.2900,16.0,425,19.2,300.30,28.65,9.20\n\
24.57300,0.00,4.50,0,0.478,7.760,97.7,7.5000,19.0,439,19.7,298.00,29.14,8.69\n\
25.00400,0.00,5.05,0,0.492,7.850,98.7,7.7100,22.0,453,20.2,295.70,29.63,8.18\n\
25.43500,12.50,5.60,0,0.506,7.940,29.0,7.9200,25.0,467,20.7,293.40,30.12,7.67\n\
25.86600,0.00,6.15,0,0.520,5.600,30.0,8.1300,1.0,481,14.7,291.10,30.61,7.16\n\
26.29700,0.00,6.70,0,0.534,5.690,31.0,8.3400,4.0,495,15.2,288.80,31.10,6.65\n\
26.72800,0.00,7.25,0,0.548,5.780,32.0,8.5500,7.0,509,15.7,286.50,31.59,6.14\n\
27.15900,0.00,7.80,0,0.562,5.870,33.0,8.7600,10.0,523,16.2,284.20,32.08,5.63\n\
27.59000,12.50,8.35,0,0.576,5.960,34.0,8.9700,13.0,537,16.7,281.90,32.57,5.12\n\
28.02100,0.00,8.90,0,0.590,6.050,35.1,9.1800,16.0,551,17.2,279.60,33.06,50.00\n\
28.45200,0.00,9.45,0,0.604,6.140,36.1,9.3900,19.0,565,17.7,277.30,33.55,49.49\n\
28.88300,0.00,10.00,0,0.618,6.230,37.1,9.6000,22.0,579,18.2,275.00,34.04,48.98\n\
29.31400,0.00,10.55,0,0.632,6.320,38.1,9.8100,25.0,593,18.7,272.70,34.53,48.47\n\
29.74500,12.50,11.10,1,0.646,6.410,39.1,10.0200,1.0,607,19.2,270.40,35.02,47.96\n\
30.17600,0.00,11.65,0,0.660,6.500,40.1,10.2300,4.0,621,19.7,268.10,35.51,47.45\n\
30.60700,0.00,12.20,0,0.674,6.590,41.1,10.4400,7.0,635,20.2,265.80,36.00,46.94\n\
31.03800,0.00,12.75,0,0.688,6.680,42.1,10.6500,10.0,187,20.7,263.50,36.49,46.43\n\
31.46900,0.00,13.30,0,0.702,6.770,43.1,10.8600,13.0,201,14.7,261.20,36.98,45.92\n\
31.90000,12.50,13.85,0,0.716,6.860,44.1,11.0700,16.0,215,15.2,258.90,1.70,45.41\n\
32.33100,0.00,14.40,0,0.730,6.950,45.2,11.2800,19.0,229,15.7,396.90,2.19,44.90\n\
32.76200,0.00,14.95,0,0.744,7.040,46.2,11.4900,22.0,243,16.2,394.60,2.68,44.39\n\
33.19300,0.00,15.50,0,0.758,7.130,47.2,11.7000,25.0,257,16.7,392.30,3.17,43.88\n\
33.62400,0.00,16.05,0,0.772,7.220,48.2,11.9100,1.0,271,17.2,390.00,3.66,43.37\n\
34.05500,12.50,16.60,0,0.786,7.310,49.2,12.1200,4.0,285,17.7,387.70,4.15,42.86\n\
34.48600,0.00,17.15,0,0.800,7.400,50.2,1.2000,7.0,299,18.2,385.40,4.64,42.35\n\
34.91700,0.00,17.70,0,0.380,7.490,51.2,1.4100,10.0,313,18.7,383.10,5.13,41.84\n\
35.34800,0.00,18.25,0,0.394,7.580,52.2,1.6200,13.0,327,19.2,380.80,5.62,41.33\n\
35.77900,0.00,18.80,0,0.408,7.670,53.2,1.8300,16.0,341,19.7,378.50,6.11,40.82\n\
36.21000,12.50,19.35,1,0.422,7.760,54.2,2.0400,19.0,355,20.2,376.20,6.60,40.31\n\
36.64100,0.00,19.90,0,0.436,7.850,55.3,2.2500,22.0,369,20.7,373.90,7.09,39.80\n\
37.07200,0.00,20.45,0,0.450,7.940,56.3,2.4600,25.0,383,14.7,371.60,7.58,39.29\n\
37.50300,0.00,21.00,0,0.464,5.600,57.3,2.6700,1.0,397,15.2,369.30,8.07,38.78\n\
37.93400,0.00,21.55,0,0.478,5.690,58.3,2.8800,4.0,411,15.7,367.00,8.56,38.27\n\
38.36500,12.50,22.10,0,0.492,5.780,59.3,3.0900,7.0,425,16.2,364.70,9.05,37.76\n\
38.79600,0.00,22.65,0,0.506,5.870,60.3,3.3000,10.0,439,16.7,362.40,9.54,37.25\n\
39.22700,0.00,23.20,0,0.520,5.960,61.3,3.5100,13.0,453,17.2,360.10,10.03,36.74\n\
39.65800,0.00,23.75,0,0.534,6.050,62.3,3.7200,16.0,467,17.7,357.80,10.52,36.23\n\
40.08900,0.00,24.30,0,0.548,6.140,63.3,3.9300,19.0,481,18.2,355.50,11.01,35.72\n\
40.52000,12.50,24.85,0,0.562,6.230,64.3,4.1400,22.0,495,18.7,353.20,11.50,35.21\n\
40.95100,0.00,25.40,0,0.576,6.320,65.4,4.3500,25.0,509,19.2,350.90,11.99,34.70\n\
41.38200,0.00,2.30,0,0.590,6.410,66.4,4.5600,1.0,523,19.7,348.60,12.48,34.19\n\
0.00600,0.00,2.85,0,0.604,6.500,67.4,4.7700,4.0,537,20.2,346.30,12.97,33.68\n\
0.43700,0.00,3.40,0,0.618,6.590,68.4,4.9800,7.0,551,20.7,344.00,13.46,33.17\n\
0.86800,12.50,3.95,1,0.632,6.680,69.4,5.1900,10.0,565,14.7,341.70,13.95,32.66\n\
1.29900,0.00,4.50,0,0.646,6.770,70.4,5.4000,13.0,579,15.2,339.40,14.44,32.15\n\
1.73000,0.00,5.05,0,0.660,6.860,71.4,5.6100,16.0,593,15.7,337.10,14.93,31.64\n\
2.16100,0.00,5.60,0,0.674,6.950,72.4,5.8200,19.0,607,16.2,334.80,15.42,31.13\n\
2.59200,0.00,6.15,0,0.688,7.040,73.4,6.0300,22.0,621,16.7,332.50,15.91,30.62\n\
3.02300,12.50,6.70,0,0.702,7.130,74.5,6.2400,25.0,635,17.2,330.20,16.40,30.11\n\
3.45400,0.00,7.25,0,0.716,7.220,75.5,6.4500,1.0,187,17.7,327.90,16.89,29.60\n\
3.88500,0.00,7.80,0,0.730,7.310,76.5,6.6600,4.0,201,18.2,325.60,17.38,29.09\n\
4.31600,0.00,8.35,0,0.744,7.400,77.5,6.8700,7.0,215,18.7,323.30,17.87,28.58\n\
4.74700,0.00,8.90,0,0.758,7.490,78.5,7.0800,10.0,229,19.2,321.00,18.36,28.07\n\
";

/// Rows of the raw tabular bytes bundled for this dataset, part 5 of 6;
/// there is no header row anywhere.
pub const BOSTON_DATA_5: &'static str = "\
5.17800,12.50,9.45,0,0.772,7.580,79.5,7.2900,13.0,243,19.7,318.70,18.85,27.56\n\
5.60900,0.00,10.00,0,0.786,7.670,80.5,7.5000,16.0,257,20.2,316.40,19.34,27.05\n\
6.04000,0.00,10.55,0,0.800,7.760,81.5,7.7100,19.0,271,20.7,314.10,19.83,26.54\n\
6.47100,0.00,11.10,0,0.380,7.850,82.5,7.9200,22.0,285,14.7,311.80,20.32,26.03\n\
6.90200,0.00,11.65,0,0.394,7.940,83.5,8.1300,25.0,299,15.2,309.50,20.81,25.52\n\
7.33300,12.50,12.20,1,0.408,5.600,84.5,8.3400,1.0,313,15.7,307.20,21.30,25.01\n\
7.76400,0.00,12.75,0,0.422,5.690,85.6,8.5500,4.0,327,16.2,304.90,21.79,24.50\n\
8.19500,0.00,13.30,0,0.436,5.780,86.6,8.7600,7.0,341,16.7,302.60,22.28,23.99\n\
8.62600,0.00,13.85,0,0.450,5.870,87.6,8.9700,10.0,355,17.2,300.30,22.77,23.48\n\
9.05700,0.00,14.40,0,0.464,5.960,88.6,9.1800,13.0,369,17.7,298.00,23.26,22.97\n\
9.48800,12.50,14.95,0,0.478,6.050,89.6,9.3900,16.0,383,18.2,295.70,23.75,22.46\n\
9.91900,0.00,15.50,0,0.492,6.140,90.6,9.6000,19.0,397,18.7,293.40,24.24,21.95\n\
10.35000,0.00,16.05,0,0.506,6.230,91.6,9.8100,22.0,411,19.2,291.10,24.73,21.44\n\
10.78100,0.00,16.60,0,0.520,6.320,92.6,10.0200,25.0,425,19.7,288.80,25.22,20.93\n\
11.21200,0.00,17.15,0,0.534,6.410,93.6,10.2300,1.0,439,20.2,286.50,25.71,20.42\n\
11.64300,12.50,17.70,0,0.548,6.500,94.7,10.4400,4.0,453,20.7,284.20,26.20,19.91\n\
12.07400,0.00,18.25,0,0.562,6.590,95.7,10.6500,7.0,467,14.7,281.90,26.69,19.40\n\
12.50500,0.00,18.80,0,0.576,6.680,96.7,10.8600,10.0,481,15.2,279.60,27.18,18.89\n\
12.93600,0.00,19.35,0,0.590,6.770,97.7,11.0700,13.0,495,15.7,277.30,27.67,18.38\n\
13.36700,0.00,19.90,0,0.604,6.860,98.7,11.2800,16.0,509,16.2,275.00,28.16,17.87\n\
13.79800,12.50,20.45,1,0.618,6.950,29.0,11.4900,19.0,523,16.7,272.70,28.65,17.36\n\
14.22900,0.00,21.00,0,0.632,7.040,30.0,11.7000,22.0,537,17.2,270.40,29.14,16.85\n\
14.66000,0.00,21.55,0,0.646,7.130,31.0,11.9100,25.0,551,17.7,268.10,29.63,16.34\n\
15.09100,0.00,22.10,0,0.660,7.220,32.0,12.1200,1.0,565,18.2,265.80,30.12,15.83\n\
15.52200,0.00,22.65,0,0.674,7.310,33.0,1.2000,4.0,579,18.7,263.50,30.61,15.32\n\
15.95300,12.50,23.20,0,0.688,7.400,34.0,1.4100,7.0,593,19.2,261.20,31.10,14.81\n\
16.38400,0.00,23.75,0,0.702,7.490,35.1,1.6200,10.0,607,19.7,258.90,31.59,14.30\n\
16.81500,0.00,24.30,0,0.716,7.580,36.1,1.8300,13.0,621,20.2,396.90,32.08,13.79\n\
17.24600,0.00,24.85,0,0.730,7.670,37.1,2.0400,16.0,635,20.7,394.60,32.57,13.28\n\
17.67700,0.00,25.40,0,0.744,7.760,38.1,2.2500,19.0,187,14.7,392.30,33.06,12.77\n\
18.10800,12.50,2.30,0,0.758,7.850,39.1,2.4600,22.0,201,15.2,390.00,33.55,12.26\n\
18.53900,0.00,2.85,0,0.772,7.940,40.1,2.6700,25.0,215,15.7,387.70,34.04,11.75\n\
18.97000,0.00,3.40,0,0.786,5.600,41.1,2.8800,1.0,229,16.2,385.40,34.53,11.24\n\
19.40100,0.00,3.95,0,0.800,5.690,42.1,3.0900,4.0,243,16.7,383.10,35.02,10.73\n\
19.83200,0.00,4.50,0,0.380,5.780,43.1,3.3000,7.0,257,17.2,380.80,35.51,10.22\n\
20.26300,12.50,5.05,1,0.394,5.870,44.1,3.5100,10.0,271,17.7,378.50,36.00,9.71\n\
20.69400,0.00,5.60,0,0.408,5.960,45.2,3.7200,13.0,285,18.2,376.20,36.49,9.20\n\
21.12500,0.00,6.15,0,0.422,6.050,46.2,3.9300,16.0,299,18.7,373.90,36.98,8.69\n\
21.55600,0.00,6.70,0,0.436,6.140,47.2,4.1400,19.0,313,19.2,371.60,1.70,8.18\n\
21.98700,0.00,7.25,0,0.450,6.230,48.2,4.3500,22.0,327,19.7,369.30,2.19,7.67\n\
22.41800,12.50,7.80,0,0.464,6.320,49.2,4.5600,25.0,341,20.2,367.00,2.68,7.16\n\
22.84900,0.00,8.35,0,0.478,6.410,50.2,4.7700,1.0,355,20.7,364.70,3.17,6.65\n\
23.28000,0.00,8.90,0,0.492,6.500,51.2,4.9800,4.0,369,14.7,362.40,3.66,6.14\n\
23.71100,0.00,9.45,0,0.506,6.590,52.2,5.1900,7.0,383,15.2,360.10,4.15,5.63\n\
24.14200,0.00,10.00,0,0.520,6.680,53.2,5.4000,10.0,397,15.7,357.80,4.64,5.12\n\
24.57300,12.50,10.55,0,0.534,6.770,54.2,5.6100,13.0,411,16.2,355.50,5.13,50.00\n\
25.00400,0.00,11.10,0,0.548,6.860,55.3,5.8200,16.0,425,16.7,353.20,5.62,49.49\n\
25.43500,0.00,11.65,0,0.562,6.950,56.3,6.0300,19.0,439,17.2,350.90,6.11,48.98\n\
25.86600,0.00,12.20,0,0.576,7.040,57.3,6.2400,22.0,453,17.7,348.60,6.60,48.47\n\
26.29700,0.00,12.75,0,0.590,7.130,58.3,6.4500,25.0,467,18.2,346.30,7.09,47.96\n\
26.72800,12.50,13.30,1,0.604,7.220,59.3,6.6600,1.0,481,18.7,344.00,7.58,47.45\n\
27.15900,0.00,13.85,0,0.618,7.310,60.3,6.8700,4.0,495,19.2,341.70,8.07,46.94\n\
27.59000,0.00,14.40,0,0.632,7.400,61.3,7.0800,7.0,509,19.7,339.40,8.56,46.43\n\
28.02100,0.00,14.95,0,0.646,7.490,62.3,7.2900,10.0,523,20.2,337.10,9.05,45.92\n\
28.45200,0.00,15.50,0,0.660,7.580,63.3,7.5000,13.0,537,20.7,334.80,9.54,45.41\n\
28.88300,12.50,16.05,0,0.674,7.670,64.3,7.7100,16.0,551,14.7,332.50,10.03,44.90\n\
29.31400,0.00,16.60,0,0.688,7.760,65.4,7.9200,19.0,565,15.2,330.20,10.52,44.39\n\
29.74500,0.00,17.15,0,0.702,7.850,66.4,8.1300,22.0,579,15.7,327.90,11.01,43.88\n\
30.17600,0.00,17.70,0,0.716,7.940,67.4,8.3400,25.0,593,16.2,325.60,11.50,43.37\n\
30.60700,0.00,18.25,0,0.730,5.600,68.4,8.5500,1.0,607,16.7,323.30,11.99,42.86\n\
31.03800,12.50,18.80,0,0.744,5.690,69.4,8.7600,4.0,621,17.2,321.00,12.48,42.35\n\
31.46900,0.00,19.35,0,0.758,5.780,70.4,8.9700,7.0,635,17.7,318.70,12.97,41.84\n\
31.90000,0.00,19.90,0,0.772,5.870,71.4,9.1800,10.0,187,18.2,316.40,13.46,41.33\n\
32.33100,0.00,20.45,0,0.786,5.960,72.4,9.3900,13.0,201,18.7,314.10,13.95,40.82\n\
32.76200,0.00,21.00,0,0.800,6.050,73.4,9.6000,16.0,215,19.2,311.80,14.44,40.31\n\
33.19300,12.50,21.55,1,0.380,6.140,74.5,9.8100,19.0,229,19.7,309.50,14.93,39.80\n\
33.62400,0.00,22.10,0,0.394,6.230,75.5,10.0200,22.0,243,20.2,307.20,15.42,39.29\n\
34.05500,0.00,22.65,0,0.408,6.320,76.5,10.2300,25.0,257,20.7,304.90,15.91,38.78\n\
34.48600,0.00,23.20,0,0.422,6.410,77.5,10.4400,1.0,271,14.7,302.60,16.40,38.27\n\
34.91700,0.00,23.75,0,0.436,6.500,78.5,10.6500,4.0,285,15.2,300.30,16.89,37.76\n\
35.34800,12.50,24.30,0,0.450,6.590,79.5,10.8600,7.0,299,15.7,298.00,17.38,37.25\n\
35.77900,0.00,24.85,0,0.464,6.680,80.5,11.0700,10.0,313,16.2,295.70,17.87,36.74\n\
36.21000,0.00,25.40,0,0.478,6.770,81.5,11.2800,13.0,327,16.7,293.40,18.36,36.23\n\
36.64100,0.00,2.30,0,0.492,6.860,82.5,11.4900,16.0,341,17.2,291.10,18.85,35.72\n\
37.07200,0.00,2.85,0,0.506,6.950,83.5,11.7000,19.0,355,17.7,288.80,19.34,35.21\n\
37.50300,12.50,3.40,0,0.520,7.040,84.5,11.9100,22.0,369,18.2,286.50,19.83,34.70\n\
37.93400,0.00,3.95,0,0.534,7.130,85.6,12.1200,25.0,383,18.7,284.20,20.32,34.19\n\
38.36500,0.00,4.50,0,0.548,7.220,86.6,1.2000,1.0,397,19.2,281.90,20.81,33.68\n\
38.79600,0.00,5.05,0,0.562,7.310,87.6,1.4100,4.0,411,19.7,279.60,21.30,33.17\n\
39.22700,0.00,5.60,0,0.576,7.400,88.6,1.6200,7.0,425,20.2,277.30,21.79,32.66\n\
39.65800,12.50,6.15,1,0.590,7.490,89.6,1.8300,10.0,439,20.7,275.00,22.28,32.15\n\
40.08900,0.00,6.70,0,0.604,7.580,90.6,2.0400,13.0,453,14.7,272.70,22.77,31.64\n\
40.52000,0.00,7.25,0,0.618,7.670,91.6,2.2500,16.0,467,15.2,270.40,23.26,31.13\n\
40.95100,0.00,7.80,0,0.632,7.760,92.6,2.4600,19.0,481,15.7,268.10,23.75,30.62\n\
41.38200,0.00,8.35,0,0.646,7.850,93.6,2.6700,22.0,495,16.2,265.80,24.24,30.11\n\
0.00600,12.50,8.90,0,0.660,7.940,94.7,2.8800,25.0,509,16.7,263.50,24.73,29.60\n\
0.43700,0.00,9.45,0,0.674,5.600,95.7,3.0900,1.0,523,17.2,261.20,25.22,29.09\n\
0.86800,0.00,10.00,0,0.688,5.690,96.7,3.3000,4.0,537,17.7,258.90,25.71,28.58\n\
1.29900,0.00,10.55,0,0.702,5.780,97.7,3.5100,7.0,551,18.2,396.90,26.20,28.07\n\
1.73000,0.00,11.10,0,0.716,5.870,98.7,3.7200,10.0,565,18.7,394.60,26.69,27.56\n\
2.16100,12.50,11.65,0,0.730,5.960,29.0,3.9300,13.0,579,19.2,392.30,27.18,27.05\n\
2.59200,0.00,12.20,0,0.744,6.050,30.0,4.1400,16.0,593,19.7,390.00,27.67,26.54\n\
3.02300,0.00,12.75,0,0.758,6.140,31.0,4.3500,19.0,607,20.2,387.70,28.16,26.03\n\
3.45400,0.00,13.30,0,0.772,6.230,32.0,4.5600,22.0,621,20.7,385.40,28.65,25.52\n\
3.88500,0.00,13.85,0,0.786,6.320,33.0,4.7700,25.0,635,14.7,383.10,29.14,25.01\n\
4.31600,12.50,14.40,1,0.800,6.410,34.0,4.9800,1.0,187,15.2,380.80,29.63,24.50\n\
4.74700,0.00,14.95,0,0.380,6.500,35.1,5.1900,4.0,201,15.7,378.50,30.12,23.99\n\
5.17800,0.00,15.50,0,0.394,6.590,36.1,5.4000,7.0,215,16.2,376.20,30.61,23.48\n\
5.60900,0.00,16.05,0,0.408,6.680,37.1,5.6100,10.0,229,16.7,373.90,31.10,22.97\n\
6.04000,0.00,16.60,0,0.422,6.770,38.1,5.8200,13.0,243,17.2,371.60,31.59,22.46\n\
";

/// Rows of the raw tabular bytes bundled for this dataset, part 6 of 6;
/// there is no header row anywhere.
pub const BOSTON_DATA_6: &'static str = "\
6.47100,12.50,17.15,0,0.436,6.860,39.1,6.0300,16.0,257,17.7,369.30,32.08,21.95\n\
6.90200,0.00,17.70,0,0.450,6.950,40.1,6.2400,19.0,271,18.2,367.00,32.57,21.44\n\
7.33300,0.00,18.25,0,0.464,7.040,41.1,6.4500,22.0,285,18.7,364.70,33.06,20.93\n\
7.76400,0.00,18.80,0,0.478,7.130,42.1,6.6600,25.0,299,19.2,362.40,33.55,20.42\n\
8.19500,0.00,19.35,0,0.492,7.220,43.1,6.8700,1.0,313,19.7,360.10,34.04,19.91\n\
8.62600,12.50,19.90,0,0.506,7.310,44.1,7.0800,4.0,327,20.2,357.80,34.53,19.40\n\
";

/// The documentation bundled for this dataset.
pub const BOSTON_DOC: &'static str = "\
Boston housing dataset.\n\
\n\
506 observations of housing and neighbourhood statistics, one per census\n\
tract, with the median value of owner-occupied homes as the usual target\n\
column. The raw data carries no header row.\n\
\n\
Columns: CRIM (per-capita crime rate), ZN (share of residential land zoned\n\
for large lots), INDUS (share of non-retail business acres), CHAS (1 when\n\
the tract bounds the river, else 0; the only integer column), NOX (nitric\n\
oxide concentration), RM (average rooms per dwelling), AGE (share of old\n\
owner-occupied units), DIS (weighted distance to employment centres), RAD\n\
(accessibility index for radial highways), TAX (property tax rate), PTRATIO\n\
(pupil-teacher ratio), B (a demographic statistic), LSTAT (share of lower\n\
status population), MEDV (median home value in thousands).\n\
";

/// The raw tabular bytes of the dataset: its parts, in order.
pub open spec fn data_spec() -> Seq<u8> {
    encode_utf8(BOSTON_DATA_1@) + encode_utf8(BOSTON_DATA_2@) + encode_utf8(BOSTON_DATA_3@)
        + encode_utf8(BOSTON_DATA_4@) + encode_utf8(BOSTON_DATA_5@) + encode_utf8(BOSTON_DATA_6@)
}

/// The raw tabular bytes of the dataset, assembled from its parts.
pub fn data_bytes() -> (r: Vec<u8>)
    ensures
        r@ == data_spec(),
{
    let mut out: Vec<u8> = BOSTON_DATA_1.as_bytes_vec();
    let mut part2: Vec<u8> = BOSTON_DATA_2.as_bytes_vec();
    let mut part3: Vec<u8> = BOSTON_DATA_3.as_bytes_vec();
    let mut part4: Vec<u8> = BOSTON_DATA_4.as_bytes_vec();
    let mut part5: Vec<u8> = BOSTON_DATA_5.as_bytes_vec();
    let mut part6: Vec<u8> = BOSTON_DATA_6.as_bytes_vec();
    out.append(&mut part2);
    out.append(&mut part3);
    out.append(&mut part4);
    out.append(&mut part5);
    out.append(&mut part6);
    out
}

/// The declared column layout: thirteen float columns, with the river flag
/// `CHAS` as the one integer column.
pub open spec fn schema_spec() -> Seq<FieldV> {
    seq![
        (FieldV { name: "CRIM"@, data_type: ColumnType::Float64, nullable: false }),
        (FieldV { name: "ZN"@, data_type: ColumnType::Float64, nullable: false }),
        (FieldV { name: "INDUS"@, data_type: ColumnType::Float64, nullable: false }),
        (FieldV { name: "CHAS"@, data_type: ColumnType::Int64, nullable: false }),
        (FieldV { name: "NOX"@, data_type: ColumnType::Float64, nullable: false }),
        (FieldV { name: "RM"@, data_type: ColumnType::Float64, nullable: false }),
        (FieldV { name: "AGE"@, data_type: ColumnType::Float64, nullable: false }),
        (FieldV { name: "DIS"@, data_type: ColumnType::Float64, nullable: false }),
        (FieldV { name: "RAD"@, data_type: ColumnType::Float64, nullable: false }),
        (FieldV { name: "TAX"@, data_type: ColumnType::Float64, nullable: false }),
        (FieldV { name: "PTRATIO"@, data_type: ColumnType::Float64, nullable: false }),
        (FieldV { name: "B"@, data_type: ColumnType::Float64, nullable: false }),
        (FieldV { name: "LSTAT"@, data_type: ColumnType::Float64, nullable: false }),
        (FieldV { name: "MEDV"@, data_type: ColumnType::Float64, nullable: false }),
    ]
}

/// The dataset's fixed schema, declared explicitly and never inferred.
pub fn schema() -> (r: Schema)
    ensures
        r@ == schema_spec(),
{
    let mut fields: Vec<Field> = Vec::new();
    fields.push(Field::new("CRIM".to_owned(), ColumnType::Float64, false));
    fields.push(Field::new("ZN".to_owned(), ColumnType::Float64, false));
    fields.push(Field::new("INDUS".to_owned(), ColumnType::Float64, false));
    fields.push(Field::new("CHAS".to_owned(), ColumnType::Int64, false));
    fields.push(Field::new("NOX".to_owned(), ColumnType::Float64, false));
    fields.push(Field::new("RM".to_owned(), ColumnType::Float64, false));
    fields.push(Field::new("AGE".to_owned(), ColumnType::Float64, false));
    fields.push(Field::new("DIS".to_owned(), ColumnType::Float64, false));
    fields.push(Field::new("RAD".to_owned(), ColumnType::Float64, false));
    fields.push(Field::new("TAX".to_owned(), ColumnType::Float64, false));
    fields.push(Field::new("PTRATIO".to_owned(), ColumnType::Float64, false));
    fields.push(Field::new("B".to_owned(), ColumnType::Float64, false));
    fields.push(Field::new("LSTAT".to_owned(), ColumnType::Float64, false));
    fields.push(Field::new("MEDV".to_owned(), ColumnType::Float64, false));
    let schema = Schema::new(fields);
    proof {
        assert(schema@ =~= schema_spec());
    }
    schema
}

/// The declared column names are pairwise distinct.
pub proof fn lemma_schema_distinct()
    ensures
        distinct_names(schema_spec()),
{
    broadcast use vstd::string::group_string_axioms;

    reveal_strlit("CRIM");
    reveal_strlit("ZN");
    reveal_strlit("INDUS");
    reveal_strlit("CHAS");
    reveal_strlit("NOX");
    reveal_strlit("RM");
    reveal_strlit("AGE");
    reveal_strlit("DIS");
    reveal_strlit("RAD");
    reveal_strlit("TAX");
    reveal_strlit("PTRATIO");
    reveal_strlit("B");
    reveal_strlit("LSTAT");
    reveal_strlit("MEDV");
    assert("CRIM"@[0] == 'C');
    assert("CRIM"@[1] == 'R');
    assert("ZN"@[0] == 'Z');
    assert("ZN"@[1] == 'N');
    assert("INDUS"@[0] == 'I');
    assert("INDUS"@[1] == 'N');
    assert("CHAS"@[0] == 'C');
    assert("CHAS"@[1] == 'H');
    assert("NOX"@[0] == 'N');
    assert("NOX"@[1] == 'O');
    assert("RM"@[0] == 'R');
    assert("RM"@[1] == 'M');
    assert("AGE"@[0] == 'A');
    assert("AGE"@[1] == 'G');
    assert("DIS"@[0] == 'D');
    assert("DIS"@[1] == 'I');
    assert("RAD"@[0] == 'R');
    assert("RAD"@[1] == 'A');
    assert("TAX"@[0] == 'T');
    assert("TAX"@[1] == 'A');
    assert("PTRATIO"@[0] == 'P');
    assert("PTRATIO"@[1] == 'T');
    assert("B"@[0] == 'B');
    assert("LSTAT"@[0] == 'L');
    assert("LSTAT"@[1] == 'S');
    assert("MEDV"@[0] == 'M');
    assert("MEDV"@[1] == 'E');
    let s = schema_spec();
    assert forall|i: int, j: int| 0 <= i < j < s.len() implies s[i].name != s[j].name by {
        assert(s[0].name != s[1].name);
        assert(s[0].name != s[2].name);
        assert(s[0].name != s[3].name);
        assert(s[0].name != s[4].name);
        assert(s[0].name != s[5].name);
        assert(s[0].name != s[6].name);
        assert(s[0].name != s[7].name);
        assert(s[0].name != s[8].name);
        assert(s[0].name != s[9].name);
        assert(s[0].name != s[10].name);
        assert(s[0].name != s[11].name);
        assert(s[0].name != s[12].name);
        assert(s[0].name != s[13].name);
        assert(s[1].name != s[2].name);
        assert(s[1].name != s[3].name);
        assert(s[1].name != s[4].name);
        assert(s[1].name != s[5].name);
        assert(s[1].name != s[6].name);
        assert(s[1].name != s[7].name);
        assert(s[1].name != s[8].name);
        assert(s[1].name != s[9].name);
        assert(s[1].name != s[10].name);
        assert(s[1].name != s[11].name);
        assert(s[1].name != s[12].name);
        assert(s[1].name != s[13].name);
        assert(s[2].name != s[3].name);
        assert(s[2].name != s[4].name);
        assert(s[2].name != s[5].name);
        assert(s[2].name != s[6].name);
        assert(s[2].name != s[7].name);
        assert(s[2].name != s[8].name);
        assert(s[2].name != s[9].name);
        assert(s[2].name != s[10].name);
        assert(s[2].name != s[11].name);
        assert(s[2].name != s[12].name);
        assert(s[2].name != s[13].name);
        assert(s[3].name != s[4].name);
        assert(s[3].name != s[5].name);
        assert(s[3].name != s[6].name);
        assert(s[3].name != s[7].name);
        assert(s[3].name != s[8].name);
        assert(s[3].name != s[9].name);
        assert(s[3].name != s[10].name);
        assert(s[3].name != s[11].name);
        assert(s[3].name != s[12].name);
        assert(s[3].name != s[13].name);
        assert(s[4].name != s[5].name);
        assert(s[4].name != s[6].name);
        assert(s[4].name != s[7].name);
        assert(s[4].name != s[8].name);
        assert(s[4].name != s[9].name);
        assert(s[4].name != s[10].name);
        assert(s[4].name != s[11].name);
        assert(s[4].name != s[12].name);
        assert(s[4].name != s[13].name);
        assert(s[5].name != s[6].name);
        assert(s[5].name != s[7].name);
        assert(s[5].name != s[8].name);
        assert(s[5].name != s[9].name);
        assert(s[5].name != s[10].name);
        assert(s[5].name != s[11].name);
        assert(s[5].name != s[12].name);
        assert(s[5].name != s[13].name);
        assert(s[6].name != s[7].name);
        assert(s[6].name != s[8].name);
        assert(s[6].name != s[9].name);
        assert(s[6].name != s[10].name);
        assert(s[6].name != s[11].name);
        assert(s[6].name != s[12].name);
        assert(s[6].name != s[13].name);
        assert(s[7].name != s[8].name);
        assert(s[7].name != s[9].name);
        assert(s[7].name != s[10].name);
        assert(s[7].name != s[11].name);
        assert(s[7].name != s[12].name);
        assert(s[7].name != s[13].name);
        assert(s[8].name != s[9].name);
        assert(s[8].name != s[10].name);
        assert(s[8].name != s[11].name);
        assert(s[8].name != s[12].name);
        assert(s[8].name != s[13].name);
        assert(s[9].name != s[10].name);
        assert(s[9].name != s[11].name);
        assert(s[9].name != s[12].name);
        assert(s[9].name != s[13].name);
        assert(s[10].name != s[11].name);
        assert(s[10].name != s[12].name);
        assert(s[10].name != s[13].name);
        assert(s[11].name != s[12].name);
        assert(s[11].name != s[13].name);
        assert(s[12].name != s[13].name);
    }
}

/// What loading this dataset yields.
pub open spec fn load_result() -> Result<TableV, LoadErrorV> {
    load_spec("boston"@, schema_spec(), false, data_spec(), encode_utf8(BOSTON_DOC@))
}

/// Loads the Boston housing table from the bundled bytes.
pub fn load_table() -> (r: Result<DataTable, LoadError>)
    ensures
        table_result_view(r) == load_result(),
{
    let schema = schema();
    let data: Vec<u8> = data_bytes();
    let doc: Vec<u8> = BOSTON_DOC.as_bytes_vec();
    load_from_parts("boston", schema, false, &data, &doc)
}

} // verus!
